//! The life of one client session, as a state machine.
//!
//! A session is `Connecting` until it has been given its identifiers, then
//! `Active` until its peer closes the reliable channel, then `Disconnected`
//! for good. The machine takes one event at a time and answers with the
//! actions that the event calls for, in the order in which they are to be
//! carried out. It performs none of them itself: whoever drives it reads
//! and writes the socket, runs the decoder, applies registry changes and
//! publishes, and hands back what happened as the next event. Because one
//! event is handled at a time, what a session reads and what it writes is
//! never handled at once.

use vstd::prelude::*;
use crate::faults::Fault;
use crate::registry::{RegistryOp, RegistryOpView};
use crate::router::{delivered, delivers_to, lemma_delivered_exact, should_deliver};
use crate::types::{
    AcceptData, AcceptDataView, DisconnectData, DisconnectDataView, Entity, EntityType, EntityView,
    Packet, PacketType, PacketView, SessionRecord, SessionRecordView, SpawnData, SpawnDataView,
    SpawnPoint,
};

verus! {

/// Where a session stands in its life.
#[derive(Clone, Copy, Debug, PartialEq, Eq, Structural)]
pub enum SessionState {
    Connecting,
    Active,
    Disconnected,
}

/// What a session has to tell the others.
#[derive(Debug, PartialEq)]
pub enum NoticeBody<P> {
    Spawn(SpawnData<P>),
    Disconnect(DisconnectData),
}

/// The body of a notice, with every string as its characters.
pub enum NoticeBodyView<P> {
    Spawn(SpawnDataView<P>),
    Disconnect(DisconnectDataView),
}

impl<P> View for NoticeBody<P> {
    type V = NoticeBodyView<P>;

    open spec fn view(&self) -> NoticeBodyView<P> {
        match self {
            NoticeBody::Spawn(data) => NoticeBodyView::Spawn(data@),
            NoticeBody::Disconnect(data) => NoticeBodyView::Disconnect(data@),
        }
    }
}

impl<P> NoticeBodyView<P> {
    /// The packet type that goes with this body.
    pub open spec fn ptype(self) -> PacketType {
        match self {
            NoticeBodyView::Spawn(_) => PacketType::Spawn,
            NoticeBodyView::Disconnect(_) => PacketType::Disconnect,
        }
    }
}

/// A packet in the making: the session at `sender` announces `body` to
/// every other session. It becomes a packet once its body has been
/// encoded.
#[derive(Debug, PartialEq)]
pub struct Notice<P> {
    pub sender: String,
    pub body: NoticeBody<P>,
}

/// A notice, with every string as its characters.
pub struct NoticeView<P> {
    pub sender: Seq<char>,
    pub body: NoticeBodyView<P>,
}

impl<P> View for Notice<P> {
    type V = NoticeView<P>;

    open spec fn view(&self) -> NoticeView<P> {
        NoticeView { sender: self.sender@, body: self.body@ }
    }
}

impl<P> NoticeView<P> {
    /// The packet that carries this notice with `data` as its encoded
    /// body. It is relayed to the others: neither flag is set, so that the
    /// origin is not told what it already knows.
    pub open spec fn sealed(self, data: Seq<char>) -> PacketView {
        PacketView {
            sender: self.sender,
            ptype: self.body.ptype(),
            data,
            send_back: false,
            owner_only: false,
        }
    }
}

impl<P> NoticeView<P> {
    /// However its body is encoded, a notice is handed to every subscriber
    /// but the one at its sender's address: a session never hears its own
    /// spawn or its own disconnect.
    pub proof fn lemma_notice_reaches_the_others_only(self, data: Seq<char>, subscriber: Seq<char>)
        ensures
            delivers_to(self.sealed(data), subscriber) <==> subscriber != self.sender,
    {
    }
}

impl<P: Copy> Notice<P> {
    /// Makes the packet that carries this notice, given its encoded body.
    pub fn seal(&self, data: String) -> (packet: Packet)
        ensures
            packet@ == self@.sealed(data@),
    {
        let ptype = match &self.body {
            NoticeBody::Spawn(_) => PacketType::Spawn,
            NoticeBody::Disconnect(_) => PacketType::Disconnect,
        };
        Packet { sender: self.sender.clone(), ptype, data, send_back: false, owner_only: false }
    }
}

/// Something that happened to a session.
#[derive(Debug, PartialEq, Eq)]
pub enum Event {
    /// The connection was accepted and the identifier generator gave the
    /// session its two identifiers.
    Accepted { connection_id: String, entity_id: String },
    /// A read from the reliable channel returned `length` bytes. A length
    /// of zero means that the peer has closed the channel.
    Read { length: usize },
    /// The session's subscription yielded a packet.
    Delivery(Packet),
    /// An operation of the session failed.
    Fault(Fault),
}

/// An event, with every string as its characters.
pub enum EventView {
    Accepted { connection_id: Seq<char>, entity_id: Seq<char> },
    Read { length: usize },
    Delivery(PacketView),
    Fault(Fault),
}

impl View for Event {
    type V = EventView;

    open spec fn view(&self) -> EventView {
        match self {
            Event::Accepted { connection_id, entity_id } => EventView::Accepted {
                connection_id: connection_id@,
                entity_id: entity_id@,
            },
            Event::Read { length } => EventView::Read { length: *length },
            Event::Delivery(packet) => EventView::Delivery(packet@),
            Event::Fault(fault) => EventView::Fault(*fault),
        }
    }
}

/// Something a session asks its driver to do.
#[derive(Debug, PartialEq)]
pub enum Action<P> {
    /// Apply this change to the registry.
    Registry(RegistryOp<P>),
    /// Send this handshake response to the session's own client, directly
    /// and not through the router.
    SendAccept(AcceptData<P>),
    /// Encode the notice's body, seal it and publish the packet.
    Publish(Notice<P>),
    /// Hand the first `length` bytes that were read to the decoder,
    /// together with the publish endpoint and the session's address.
    Decode { length: usize },
    /// Serialise this packet and write it to the session's client.
    Write(Packet),
}

/// An action, with every string as its characters.
pub enum ActionView<P> {
    Registry(RegistryOpView<P>),
    SendAccept(AcceptDataView<P>),
    Publish(NoticeView<P>),
    Decode { length: usize },
    Write(PacketView),
}

impl<P> View for Action<P> {
    type V = ActionView<P>;

    open spec fn view(&self) -> ActionView<P> {
        match self {
            Action::Registry(op) => ActionView::Registry(op@),
            Action::SendAccept(data) => ActionView::SendAccept(data@),
            Action::Publish(notice) => ActionView::Publish(notice@),
            Action::Decode { length } => ActionView::Decode { length: *length },
            Action::Write(packet) => ActionView::Write(packet@),
        }
    }
}

/// The views of a run of actions, in order.
pub open spec fn action_views<P>(actions: Seq<Action<P>>) -> Seq<ActionView<P>> {
    Seq::new(actions.len(), |i: int| actions[i]@)
}

/// What a session is: its state, its client's address, its identifiers
/// (empty until it is accepted) and where its player entity is placed.
pub struct SessionView<P> {
    pub state: SessionState,
    pub address: Seq<char>,
    pub connection_id: Seq<char>,
    pub entity_id: Seq<char>,
    pub spawn: SpawnPoint<P>,
}

impl<P> SessionView<P> {
    /// The session of a client at `address` that has just connected.
    pub open spec fn initial(address: Seq<char>, spawn: SpawnPoint<P>) -> SessionView<P> {
        SessionView {
            state: SessionState::Connecting,
            address,
            connection_id: Seq::empty(),
            entity_id: Seq::empty(),
            spawn,
        }
    }

    /// The registry changes that admit this session under the given
    /// identifiers: its record, then its player entity.
    pub open spec fn admission(self, connection_id: Seq<char>, entity_id: Seq<char>) -> Seq<
        RegistryOpView<P>,
    > {
        seq![
            RegistryOpView::RegisterConnection(
                SessionRecordView { connection_id, address: self.address },
            ),
            RegistryOpView::RegisterEntity(EntityView::player(entity_id, self.address, self.spawn)),
        ]
    }

    /// The registry changes that dismiss this session: its record goes,
    /// then its player entity.
    pub open spec fn dismissal(self) -> Seq<RegistryOpView<P>> {
        seq![
            RegistryOpView::UnregisterConnection { connection_id: self.connection_id },
            RegistryOpView::UnregisterEntity {
                entity_type: EntityType::Player,
                entity_id: self.entity_id,
            },
        ]
    }

    /// The session after `event`.
    pub open spec fn next(self, event: EventView) -> SessionView<P> {
        match (self.state, event) {
            (SessionState::Connecting, EventView::Accepted { connection_id, entity_id }) => SessionView {
                state: SessionState::Active,
                connection_id,
                entity_id,
                ..self
            },
            (SessionState::Active, EventView::Read { length }) => if length == 0 {
                SessionView { state: SessionState::Disconnected, ..self }
            } else {
                self
            },
            _ => self,
        }
    }

    /// What `event` calls for, in order.
    ///
    /// * Accepted while connecting: register the connection, register the
    ///   player entity, send the handshake response to the client, then
    ///   announce the spawn to the others.
    /// * A read of no bytes while active: unregister the connection,
    ///   unregister the player entity, then announce the disconnect to the
    ///   others.
    /// * A read of some bytes while active: hand them whole to the decoder.
    /// * A packet from the subscription while active: write it to the
    ///   client if the delivery table lets it through to this session's
    ///   address; otherwise nothing.
    /// * Anything else, a fault among them: nothing.
    pub open spec fn actions(self, event: EventView) -> Seq<ActionView<P>> {
        match (self.state, event) {
            (SessionState::Connecting, EventView::Accepted { connection_id, entity_id }) => seq![
                ActionView::Registry(self.admission(connection_id, entity_id)[0]),
                ActionView::Registry(self.admission(connection_id, entity_id)[1]),
                ActionView::SendAccept(AcceptDataView::welcome(entity_id, self.spawn)),
                ActionView::Publish(
                    NoticeView {
                        sender: self.address,
                        body: NoticeBodyView::Spawn(SpawnDataView::at(entity_id, self.spawn)),
                    },
                ),
            ],
            (SessionState::Active, EventView::Read { length }) => if length == 0 {
                seq![
                    ActionView::Registry(self.dismissal()[0]),
                    ActionView::Registry(self.dismissal()[1]),
                    ActionView::Publish(
                        NoticeView {
                            sender: self.address,
                            body: NoticeBodyView::Disconnect(
                                DisconnectDataView { entity_id: self.entity_id },
                            ),
                        },
                    ),
                ]
            } else {
                seq![ActionView::Decode { length }]
            },
            (SessionState::Active, EventView::Delivery(packet)) => if delivers_to(packet, self.address) {
                seq![ActionView::Write(packet)]
            } else {
                Seq::empty()
            },
            _ => Seq::empty(),
        }
    }
}

impl<P> SessionView<P> {
    /// The session after a run of events, first to last.
    pub open spec fn after(self, events: Seq<EventView>) -> SessionView<P>
        decreases events.len(),
    {
        if events.len() == 0 {
            self
        } else {
            self.after(events.drop_last()).next(events.last())
        }
    }

    /// All that a run of events called for, in order.
    pub open spec fn trace(self, events: Seq<EventView>) -> Seq<ActionView<P>>
        decreases events.len(),
    {
        if events.len() == 0 {
            Seq::empty()
        } else {
            self.trace(events.drop_last()) + self.after(events.drop_last()).actions(events.last())
        }
    }

    /// A disconnected session stays as it is and asks for nothing more.
    pub proof fn lemma_disconnected_is_final(self, event: EventView)
        requires
            self.state == SessionState::Disconnected,
        ensures
            self.next(event) == self,
            self.actions(event) == Seq::<ActionView<P>>::empty(),
    {
    }

    /// A session only moves forward: from connecting to active on being
    /// accepted, from active to disconnected on a read of no bytes, and in
    /// no other way. Its address and spawn point never change, and its
    /// identifiers are those it was accepted under.
    pub proof fn lemma_moves_forward(self, event: EventView)
        ensures
            self.next(event).address == self.address,
            self.next(event).spawn == self.spawn,
            self.next(event).state != self.state ==> ({
                ||| self.state == SessionState::Connecting && self.next(event).state
                    == SessionState::Active && event is Accepted
                ||| self.state == SessionState::Active && self.next(event).state
                    == SessionState::Disconnected && event == (EventView::Read { length: 0 })
            }),
            self.state != SessionState::Connecting ==> self.next(event).connection_id
                == self.connection_id && self.next(event).entity_id == self.entity_id,
    {
    }

    /// Registry changes and notices come in pairs: an answer that changes
    /// the registry ends with a notice, and changes the registry before it
    /// announces anything. So a session is filed before the others hear of
    /// it, and struck out before the others hear that it is gone.
    pub proof fn lemma_registry_changes_are_announced(self, event: EventView, i: int)
        requires
            0 <= i < self.actions(event).len(),
            self.actions(event)[i] is Registry,
        ensures
            self.actions(event).last() is Publish,
            forall|j: int|
                0 <= j < self.actions(event).len() && #[trigger] self.actions(event)[j] is Publish
                    ==> i < j,
    {
    }

    /// Of the active sessions that subscribe, those that write a published
    /// packet to their clients are exactly those at the addresses the
    /// delivery table hands the packet to; the others do nothing with it.
    pub proof fn lemma_written_by_the_recipients(
        self,
        packet: PacketView,
        subscribers: Seq<Seq<char>>,
    )
        requires
            self.state == SessionState::Active,
            subscribers.contains(self.address),
        ensures
            self.actions(EventView::Delivery(packet)) == (if delivered(packet, subscribers).contains(
                self.address,
            ) {
                seq![ActionView::<P>::Write(packet)]
            } else {
                Seq::<ActionView<P>>::empty()
            }),
            self.next(EventView::Delivery(packet)) == self,
    {
        lemma_delivered_exact(packet, subscribers);
    }

    /// A fault changes nothing and calls for nothing.
    pub proof fn lemma_fault_is_contained(self, fault: Fault)
        ensures
            self.next(EventView::Fault(fault)) == self,
            self.actions(EventView::Fault(fault)) == Seq::<ActionView<P>>::empty(),
    {
    }
}

/// The registry changes among a run of actions, in order.
pub open spec fn registry_ops<P>(actions: Seq<ActionView<P>>) -> Seq<RegistryOpView<P>>
    decreases actions.len(),
{
    if actions.len() == 0 {
        Seq::empty()
    } else {
        match actions.last() {
            ActionView::Registry(op) => registry_ops(actions.drop_last()).push(op),
            _ => registry_ops(actions.drop_last()),
        }
    }
}

/// The registry changes of two runs of actions in a row are those of the
/// first, then those of the second.
proof fn lemma_registry_ops_concat<P>(first: Seq<ActionView<P>>, second: Seq<ActionView<P>>)
    ensures
        registry_ops(first + second) == registry_ops(first) + registry_ops(second),
    decreases second.len(),
{
    if second.len() == 0 {
        assert(first + second =~= first);
    } else {
        assert((first + second).drop_last() =~= first + second.drop_last());
        lemma_registry_ops_concat(first, second.drop_last());
    }
}

/// Over its whole life a session changes the registry in one way only: it
/// files its record and its player entity once, when it is accepted, and
/// strikes both out once, when it disconnects. So whatever events reach a
/// new session, the registry changes it has asked for are none while it
/// is connecting, its admission while it is active, and its admission
/// followed by its dismissal once it is disconnected.
pub proof fn lemma_registry_footprint<P>(
    address: Seq<char>,
    spawn: SpawnPoint<P>,
    events: Seq<EventView>,
)
    ensures
        ({
            let start = SessionView::initial(address, spawn);
            let session = start.after(events);
            let ops = registry_ops(start.trace(events));
            let admission = session.admission(session.connection_id, session.entity_id);
            match session.state {
                SessionState::Connecting => ops == Seq::<RegistryOpView<P>>::empty(),
                SessionState::Active => ops == admission,
                SessionState::Disconnected => ops == admission + session.dismissal(),
            }
        }),
    decreases events.len(),
{
    if events.len() > 0 {
        let start = SessionView::initial(address, spawn);
        let earlier = events.drop_last();
        let answer = start.after(earlier).actions(events.last());
        lemma_registry_footprint(address, spawn, earlier);
        lemma_registry_ops_concat(start.trace(earlier), answer);
        // The answer holds four actions at most: its registry changes are
        // read off one action at a time.
        reveal_with_fuel(registry_ops, 5);
    }
}

/// One client session.
pub struct Session<P> {
    state: SessionState,
    address: String,
    connection_id: String,
    entity_id: String,
    spawn: SpawnPoint<P>,
}

impl<P> View for Session<P> {
    type V = SessionView<P>;

    closed spec fn view(&self) -> SessionView<P> {
        SessionView {
            state: self.state,
            address: self.address@,
            connection_id: self.connection_id@,
            entity_id: self.entity_id@,
            spawn: self.spawn,
        }
    }
}

impl<P: Copy> Session<P> {
    /// Starts the session of a client that has just connected from
    /// `address`. Its player entity will be placed at `spawn`.
    pub fn new(address: String, spawn: SpawnPoint<P>) -> (session: Session<P>)
        ensures
            session@ == SessionView::initial(address@, spawn),
    {
        Session {
            state: SessionState::Connecting,
            address,
            connection_id: String::new(),
            entity_id: String::new(),
            spawn,
        }
    }

    /// Takes `event`, moves to the next state and returns what is to be
    /// done about the event, first action first.
    pub fn step(&mut self, event: Event) -> (actions: Vec<Action<P>>)
        ensures
            final(self)@ == old(self)@.next(event@),
            action_views(actions@) == old(self)@.actions(event@),
            actions@.len() == old(self)@.actions(event@).len(),
    {
        let mut actions: Vec<Action<P>> = Vec::new();
        match event {
            Event::Accepted { connection_id, entity_id } => {
                if self.state == SessionState::Connecting {
                    let record = SessionRecord {
                        connection_id: connection_id.clone(),
                        address: self.address.clone(),
                    };
                    let entity = Entity::player(&entity_id, &self.address, &self.spawn);
                    let accept = AcceptData::welcome(&entity_id, &self.spawn);
                    let notice = Notice {
                        sender: self.address.clone(),
                        body: NoticeBody::Spawn(SpawnData::at(&entity_id, &self.spawn)),
                    };
                    actions.push(Action::Registry(RegistryOp::RegisterConnection(record)));
                    actions.push(Action::Registry(RegistryOp::RegisterEntity(entity)));
                    actions.push(Action::SendAccept(accept));
                    actions.push(Action::Publish(notice));
                    self.connection_id = connection_id;
                    self.entity_id = entity_id;
                    self.state = SessionState::Active;
                }
            },
            Event::Read { length } => {
                if self.state == SessionState::Active {
                    if length == 0 {
                        let notice = Notice {
                            sender: self.address.clone(),
                            body: NoticeBody::Disconnect(
                                DisconnectData { entity_id: self.entity_id.clone() },
                            ),
                        };
                        actions.push(
                            Action::Registry(
                                RegistryOp::UnregisterConnection {
                                    connection_id: self.connection_id.clone(),
                                },
                            ),
                        );
                        actions.push(
                            Action::Registry(
                                RegistryOp::UnregisterEntity {
                                    entity_type: EntityType::Player,
                                    entity_id: self.entity_id.clone(),
                                },
                            ),
                        );
                        actions.push(Action::Publish(notice));
                        self.state = SessionState::Disconnected;
                    } else {
                        actions.push(Action::Decode { length });
                    }
                }
            },
            Event::Delivery(packet) => {
                if self.state == SessionState::Active && should_deliver(&packet, &self.address) {
                    actions.push(Action::Write(packet));
                }
            },
            Event::Fault(_) => {},
        }
        actions
    }

    /// Where the session stands in its life.
    pub fn state(&self) -> (state: SessionState)
        ensures
            state == self@.state,
    {
        self.state
    }

    /// The address of the session's client.
    pub fn address(&self) -> (address: &String)
        ensures
            address@ == self@.address,
    {
        &self.address
    }

    /// The session's connection identifier; empty until it is accepted.
    pub fn connection_id(&self) -> (connection_id: &String)
        ensures
            connection_id@ == self@.connection_id,
    {
        &self.connection_id
    }

    /// The identifier of the session's player entity; empty until the
    /// session is accepted.
    pub fn entity_id(&self) -> (entity_id: &String)
        ensures
            entity_id@ == self@.entity_id,
    {
        &self.entity_id
    }
}

} // verus!
