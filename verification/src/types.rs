//! Data carried by the relay: entities, session records, packets and the
//! payloads the relay itself originates.
//!
//! The relay never interprets where an entity stands, so every type that
//! holds a position or a rotation is generic in the vector type `P` chosen
//! by the embedding application. Each type with text in it has a view in
//! which every string is its sequence of characters; contracts speak of
//! views.

use vstd::prelude::*;

verus! {

/// The kind of a simulated object; also the bucket it is filed under.
#[derive(Clone, Copy, Debug, PartialEq, Eq, Structural)]
pub enum EntityType {
    Player,
    Ai,
}

/// The kind of a packet. `Other` carries the code of a kind that only the
/// embedding application knows.
#[derive(Clone, Copy, Debug, PartialEq, Eq, Structural)]
pub enum PacketType {
    Spawn,
    Disconnect,
    Accept,
    Other(u32),
}

/// Default placement of a newly created player entity.
#[derive(Debug, PartialEq)]
pub struct SpawnPoint<P> {
    pub position: P,
    pub rotation: P,
}

impl<P: Copy> Clone for SpawnPoint<P> {
    fn clone(&self) -> (copy: Self)
        ensures
            copy == *self,
    {
        SpawnPoint { position: self.position, rotation: self.rotation }
    }
}

impl<P: Copy> Copy for SpawnPoint<P> {

}

/// A simulated object with identity, type, owner and placement.
#[derive(Debug, PartialEq)]
pub struct Entity<P> {
    pub id: String,
    pub entity_type: EntityType,
    pub owner: String,
    pub position: P,
    pub rotation: P,
    pub ai_data: Option<String>,
}

/// An entity, with every string as its characters.
pub struct EntityView<P> {
    pub id: Seq<char>,
    pub entity_type: EntityType,
    pub owner: Seq<char>,
    pub position: P,
    pub rotation: P,
    pub ai_data: Option<Seq<char>>,
}

impl<P> View for Entity<P> {
    type V = EntityView<P>;

    open spec fn view(&self) -> EntityView<P> {
        EntityView {
            id: self.id@,
            entity_type: self.entity_type,
            owner: self.owner@,
            position: self.position,
            rotation: self.rotation,
            ai_data: match self.ai_data {
                Some(data) => Some(data@),
                None => None,
            },
        }
    }
}

impl<P: Copy> Clone for Entity<P> {
    fn clone(&self) -> (copy: Self)
        ensures
            copy@ == self@,
    {
        let ai_data = match &self.ai_data {
            Some(data) => Some(data.clone()),
            None => None,
        };
        Entity {
            id: self.id.clone(),
            entity_type: self.entity_type,
            owner: self.owner.clone(),
            position: self.position,
            rotation: self.rotation,
            ai_data,
        }
    }
}

impl<P> EntityView<P> {
    /// The player entity that a session owned by `owner` gets at `spawn`.
    pub open spec fn player(id: Seq<char>, owner: Seq<char>, spawn: SpawnPoint<P>) -> EntityView<P> {
        EntityView {
            id,
            entity_type: EntityType::Player,
            owner,
            position: spawn.position,
            rotation: spawn.rotation,
            ai_data: None,
        }
    }
}

impl<P: Copy> Entity<P> {
    /// Creates the player entity of the session at address `owner`.
    pub fn player(id: &String, owner: &String, spawn: &SpawnPoint<P>) -> (entity: Entity<P>)
        ensures
            entity@ == EntityView::player(id@, owner@, *spawn),
    {
        Entity {
            id: id.clone(),
            entity_type: EntityType::Player,
            owner: owner.clone(),
            position: spawn.position,
            rotation: spawn.rotation,
            ai_data: None,
        }
    }
}

/// One active connection: its identifier and the peer's address.
#[derive(Debug, PartialEq, Eq)]
pub struct SessionRecord {
    pub connection_id: String,
    pub address: String,
}

/// A session record, with every string as its characters.
pub struct SessionRecordView {
    pub connection_id: Seq<char>,
    pub address: Seq<char>,
}

impl View for SessionRecord {
    type V = SessionRecordView;

    open spec fn view(&self) -> SessionRecordView {
        SessionRecordView { connection_id: self.connection_id@, address: self.address@ }
    }
}

impl Clone for SessionRecord {
    fn clone(&self) -> (copy: Self)
        ensures
            copy@ == self@,
    {
        SessionRecord { connection_id: self.connection_id.clone(), address: self.address.clone() }
    }
}

/// A message travelling through the relay. `data` is an opaque payload;
/// `send_back` and `owner_only` select who receives the packet.
#[derive(Debug, PartialEq, Eq)]
pub struct Packet {
    pub sender: String,
    pub ptype: PacketType,
    pub data: String,
    pub send_back: bool,
    pub owner_only: bool,
}

/// A packet, with every string as its characters.
pub struct PacketView {
    pub sender: Seq<char>,
    pub ptype: PacketType,
    pub data: Seq<char>,
    pub send_back: bool,
    pub owner_only: bool,
}

impl View for Packet {
    type V = PacketView;

    open spec fn view(&self) -> PacketView {
        PacketView {
            sender: self.sender@,
            ptype: self.ptype,
            data: self.data@,
            send_back: self.send_back,
            owner_only: self.owner_only,
        }
    }
}

impl Clone for Packet {
    fn clone(&self) -> (copy: Self)
        ensures
            copy@ == self@,
    {
        Packet {
            sender: self.sender.clone(),
            ptype: self.ptype,
            data: self.data.clone(),
            send_back: self.send_back,
            owner_only: self.owner_only,
        }
    }
}

/// Announces a new entity and where it stands.
#[derive(Debug, PartialEq)]
pub struct SpawnData<P> {
    pub entity_id: String,
    pub position: P,
    pub rotation: P,
}

/// A spawn announcement, with every string as its characters.
pub struct SpawnDataView<P> {
    pub entity_id: Seq<char>,
    pub position: P,
    pub rotation: P,
}

impl<P> View for SpawnData<P> {
    type V = SpawnDataView<P>;

    open spec fn view(&self) -> SpawnDataView<P> {
        SpawnDataView { entity_id: self.entity_id@, position: self.position, rotation: self.rotation }
    }
}

impl<P: Copy> Clone for SpawnData<P> {
    fn clone(&self) -> (copy: Self)
        ensures
            copy@ == self@,
    {
        SpawnData { entity_id: self.entity_id.clone(), position: self.position, rotation: self.rotation }
    }
}

impl<P> SpawnDataView<P> {
    /// The announcement of entity `entity_id` placed at `spawn`.
    pub open spec fn at(entity_id: Seq<char>, spawn: SpawnPoint<P>) -> SpawnDataView<P> {
        SpawnDataView { entity_id, position: spawn.position, rotation: spawn.rotation }
    }
}

impl<P: Copy> SpawnData<P> {
    /// Builds the announcement of entity `entity_id` placed at `spawn`.
    pub fn at(entity_id: &String, spawn: &SpawnPoint<P>) -> (data: SpawnData<P>)
        ensures
            data@ == SpawnDataView::at(entity_id@, *spawn),
    {
        SpawnData { entity_id: entity_id.clone(), position: spawn.position, rotation: spawn.rotation }
    }
}

/// Announces that an entity is gone.
#[derive(Debug, PartialEq, Eq)]
pub struct DisconnectData {
    pub entity_id: String,
}

/// A disconnect announcement, with every string as its characters.
pub struct DisconnectDataView {
    pub entity_id: Seq<char>,
}

impl View for DisconnectData {
    type V = DisconnectDataView;

    open spec fn view(&self) -> DisconnectDataView {
        DisconnectDataView { entity_id: self.entity_id@ }
    }
}

impl Clone for DisconnectData {
    fn clone(&self) -> (copy: Self)
        ensures
            copy@ == self@,
    {
        DisconnectData { entity_id: self.entity_id.clone() }
    }
}

/// The handshake response, sent once per session to the new client only.
#[derive(Debug, PartialEq)]
pub struct AcceptData<P> {
    pub accepted: bool,
    pub entity_id: String,
    pub err_message: String,
    pub spawn_data: SpawnData<P>,
}

/// A handshake response, with every string as its characters.
pub struct AcceptDataView<P> {
    pub accepted: bool,
    pub entity_id: Seq<char>,
    pub err_message: Seq<char>,
    pub spawn_data: SpawnDataView<P>,
}

impl<P> View for AcceptData<P> {
    type V = AcceptDataView<P>;

    open spec fn view(&self) -> AcceptDataView<P> {
        AcceptDataView {
            accepted: self.accepted,
            entity_id: self.entity_id@,
            err_message: self.err_message@,
            spawn_data: self.spawn_data@,
        }
    }
}

impl<P: Copy> Clone for AcceptData<P> {
    fn clone(&self) -> (copy: Self)
        ensures
            copy@ == self@,
    {
        AcceptData {
            accepted: self.accepted,
            entity_id: self.entity_id.clone(),
            err_message: self.err_message.clone(),
            spawn_data: self.spawn_data.clone(),
        }
    }
}

impl<P> AcceptDataView<P> {
    /// The response that admits a client and tells it its entity and where
    /// that entity stands. The error message is empty.
    pub open spec fn welcome(entity_id: Seq<char>, spawn: SpawnPoint<P>) -> AcceptDataView<P> {
        AcceptDataView {
            accepted: true,
            entity_id,
            err_message: Seq::empty(),
            spawn_data: SpawnDataView::at(entity_id, spawn),
        }
    }
}

impl<P: Copy> AcceptData<P> {
    /// Builds the response that admits a client with entity `entity_id`.
    pub fn welcome(entity_id: &String, spawn: &SpawnPoint<P>) -> (data: AcceptData<P>)
        ensures
            data@ == AcceptDataView::welcome(entity_id@, *spawn),
    {
        AcceptData {
            accepted: true,
            entity_id: entity_id.clone(),
            err_message: String::new(),
            spawn_data: SpawnData::at(entity_id, spawn),
        }
    }
}

} // verus!
