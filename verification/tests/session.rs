use relay_core::faults::Fault;
use relay_core::registry::{Registry, RegistryOp};
use relay_core::router::recipients;
use relay_core::session::{Action, Event, Notice, NoticeBody, Session, SessionState};
use relay_core::types::{
    AcceptData, DisconnectData, Entity, EntityType, Packet, PacketType, SessionRecord, SpawnData,
    SpawnPoint,
};

type Vector = [f32; 3];

const SPAWN: SpawnPoint<Vector> = SpawnPoint { position: [0.0, 1.5, 0.0], rotation: [0.0, 90.0, 0.0] };

const C1: &str = "10.0.0.1:4000";
const C2: &str = "10.0.0.2:4000";

fn accepted(connection_id: &str, entity_id: &str) -> Event {
    Event::Accepted { connection_id: connection_id.to_string(), entity_id: entity_id.to_string() }
}

fn spawn_data(entity_id: &str) -> SpawnData<Vector> {
    SpawnData { entity_id: entity_id.to_string(), position: [0.0, 1.5, 0.0], rotation: [0.0, 90.0, 0.0] }
}

fn active(address: &str, connection_id: &str, entity_id: &str) -> Session<Vector> {
    let mut session = Session::new(address.to_string(), SPAWN);
    session.step(accepted(connection_id, entity_id));
    session
}

fn update_from(sender: &str, send_back: bool, owner_only: bool) -> Packet {
    Packet {
        sender: sender.to_string(),
        ptype: PacketType::Other(1),
        data: "{\"pos\":[1,2,3]}".to_string(),
        send_back,
        owner_only,
    }
}

/// Carries out the registry changes among `actions` and seals every notice
/// with a stand-in for its encoded body; returns what was sent to the
/// client itself and what was published.
fn perform(
    actions: Vec<Action<Vector>>,
    registry: &mut Registry<Vector>,
) -> (Vec<AcceptData<Vector>>, Vec<Packet>) {
    let mut accepts = Vec::new();
    let mut published = Vec::new();
    for action in actions {
        match action {
            Action::Registry(op) => registry.apply(op),
            Action::SendAccept(accept) => accepts.push(accept),
            Action::Publish(notice) => {
                let data = match &notice.body {
                    NoticeBody::Spawn(spawn) => format!("spawn:{}", spawn.entity_id),
                    NoticeBody::Disconnect(gone) => format!("disconnect:{}", gone.entity_id),
                };
                published.push(notice.seal(data));
            }
            Action::Decode { .. } | Action::Write(_) => {}
        }
    }
    (accepts, published)
}

fn written(actions: Vec<Action<Vector>>) -> Vec<Packet> {
    actions
        .into_iter()
        .filter_map(|action| match action {
            Action::Write(packet) => Some(packet),
            _ => None,
        })
        .collect()
}

#[test]
fn new_session_is_connecting() {
    let session: Session<Vector> = Session::new(C1.to_string(), SPAWN);
    assert_eq!(session.state(), SessionState::Connecting);
    assert_eq!(session.address(), C1);
    assert_eq!(session.connection_id(), "");
    assert_eq!(session.entity_id(), "");
}

#[test]
fn accepted_session_registers_answers_and_announces_in_that_order() {
    let mut session: Session<Vector> = Session::new(C1.to_string(), SPAWN);
    let actions = session.step(accepted("conn-1", "ent-1"));
    assert_eq!(
        actions,
        vec![
            Action::Registry(RegistryOp::RegisterConnection(SessionRecord {
                connection_id: "conn-1".to_string(),
                address: C1.to_string(),
            })),
            Action::Registry(RegistryOp::RegisterEntity(Entity {
                id: "ent-1".to_string(),
                entity_type: EntityType::Player,
                owner: C1.to_string(),
                position: [0.0, 1.5, 0.0],
                rotation: [0.0, 90.0, 0.0],
                ai_data: None,
            })),
            Action::SendAccept(AcceptData {
                accepted: true,
                entity_id: "ent-1".to_string(),
                err_message: String::new(),
                spawn_data: spawn_data("ent-1"),
            }),
            Action::Publish(Notice {
                sender: C1.to_string(),
                body: NoticeBody::Spawn(spawn_data("ent-1")),
            }),
        ]
    );
    assert_eq!(session.state(), SessionState::Active);
    assert_eq!(session.connection_id(), "conn-1");
    assert_eq!(session.entity_id(), "ent-1");
    assert_eq!(session.address(), C1);
}

#[test]
fn connection_id_and_entity_id_are_kept_apart() {
    let session = active(C1, "conn-1", "ent-1");
    assert_ne!(session.connection_id(), session.entity_id());
}

#[test]
fn session_is_accepted_once() {
    let mut session = active(C1, "conn-1", "ent-1");
    assert_eq!(session.step(accepted("conn-9", "ent-9")), vec![]);
    assert_eq!(session.state(), SessionState::Active);
    assert_eq!(session.connection_id(), "conn-1");
    assert_eq!(session.entity_id(), "ent-1");
}

#[test]
fn bytes_read_go_whole_to_the_decoder() {
    let mut session = active(C1, "conn-1", "ent-1");
    assert_eq!(session.step(Event::Read { length: 1 }), vec![Action::Decode { length: 1 }]);
    assert_eq!(session.step(Event::Read { length: 1024 }), vec![Action::Decode { length: 1024 }]);
    assert_eq!(session.state(), SessionState::Active);
}

#[test]
fn read_of_no_bytes_disconnects() {
    let mut session = active(C1, "conn-1", "ent-1");
    let actions = session.step(Event::Read { length: 0 });
    assert_eq!(
        actions,
        vec![
            Action::Registry(RegistryOp::UnregisterConnection {
                connection_id: "conn-1".to_string(),
            }),
            Action::Registry(RegistryOp::UnregisterEntity {
                entity_type: EntityType::Player,
                entity_id: "ent-1".to_string(),
            }),
            Action::Publish(Notice {
                sender: C1.to_string(),
                body: NoticeBody::Disconnect(DisconnectData { entity_id: "ent-1".to_string() }),
            }),
        ]
    );
    assert_eq!(session.state(), SessionState::Disconnected);
}

#[test]
fn disconnected_session_asks_for_nothing_more() {
    let mut session = active(C1, "conn-1", "ent-1");
    session.step(Event::Read { length: 0 });
    assert_eq!(session.step(Event::Read { length: 0 }), vec![]);
    assert_eq!(session.step(Event::Read { length: 12 }), vec![]);
    assert_eq!(session.step(accepted("conn-2", "ent-2")), vec![]);
    assert_eq!(session.step(Event::Delivery(update_from(C2, false, false))), vec![]);
    assert_eq!(session.step(Event::Fault(Fault::Read)), vec![]);
    assert_eq!(session.state(), SessionState::Disconnected);
    assert_eq!(session.connection_id(), "conn-1");
}

#[test]
fn connecting_session_neither_reads_nor_writes() {
    let mut session: Session<Vector> = Session::new(C1.to_string(), SPAWN);
    assert_eq!(session.step(Event::Read { length: 0 }), vec![]);
    assert_eq!(session.step(Event::Read { length: 8 }), vec![]);
    assert_eq!(session.step(Event::Delivery(update_from(C2, false, false))), vec![]);
    assert_eq!(session.state(), SessionState::Connecting);
}

#[test]
fn faults_leave_the_session_as_it_is() {
    let mut session = active(C1, "conn-1", "ent-1");
    for fault in [
        Fault::Bind,
        Fault::Accept,
        Fault::Read,
        Fault::Write,
        Fault::SubscriberLag,
        Fault::Serialization,
    ] {
        assert_eq!(session.step(Event::Fault(fault)), vec![]);
        assert_eq!(session.state(), SessionState::Active);
    }
    assert_eq!(session.step(Event::Read { length: 3 }), vec![Action::Decode { length: 3 }]);
}

#[test]
fn delivery_is_written_when_the_table_lets_it_through() {
    let mut session = active(C1, "conn-1", "ent-1");
    for (sender, send_back, owner_only, expected) in [
        (C1, true, true, true),
        (C2, true, true, false),
        (C1, true, false, true),
        (C2, true, false, true),
        (C1, false, false, false),
        (C2, false, false, true),
        (C1, false, true, false),
        (C2, false, true, true),
    ] {
        let packet = update_from(sender, send_back, owner_only);
        let actions = session.step(Event::Delivery(packet.clone()));
        if expected {
            assert_eq!(actions, vec![Action::Write(packet)]);
        } else {
            assert_eq!(actions, vec![]);
        }
        assert_eq!(session.state(), SessionState::Active);
    }
}

#[test]
fn sealed_notice_is_relayed_to_the_others() {
    let spawn = Notice { sender: C1.to_string(), body: NoticeBody::Spawn(spawn_data("ent-1")) };
    assert_eq!(
        spawn.seal("{\"entity_id\":\"ent-1\"}".to_string()),
        Packet {
            sender: C1.to_string(),
            ptype: PacketType::Spawn,
            data: "{\"entity_id\":\"ent-1\"}".to_string(),
            send_back: false,
            owner_only: false,
        }
    );
    let gone: Notice<Vector> = Notice {
        sender: C2.to_string(),
        body: NoticeBody::Disconnect(DisconnectData { entity_id: "ent-2".to_string() }),
    };
    assert_eq!(
        gone.seal("x".to_string()),
        Packet {
            sender: C2.to_string(),
            ptype: PacketType::Disconnect,
            data: "x".to_string(),
            send_back: false,
            owner_only: false,
        }
    );
}

#[test]
fn first_client_is_accepted_and_hears_no_spawn() {
    let mut registry: Registry<Vector> = Registry::new();
    let mut c1: Session<Vector> = Session::new(C1.to_string(), SPAWN);
    let (accepts, published) = perform(c1.step(accepted("conn-1", "E1")), &mut registry);
    assert_eq!(
        accepts,
        vec![AcceptData {
            accepted: true,
            entity_id: "E1".to_string(),
            err_message: String::new(),
            spawn_data: SpawnData {
                entity_id: "E1".to_string(),
                position: SPAWN.position,
                rotation: SPAWN.rotation,
            },
        }]
    );
    assert_eq!(published.len(), 1);
    assert_eq!(published[0].ptype, PacketType::Spawn);
    assert_eq!(recipients(&published[0], &vec![C1.to_string()]), Vec::<String>::new());
    assert_eq!(written(c1.step(Event::Delivery(published[0].clone()))), vec![]);
    assert_eq!(
        registry.snapshot_connections(),
        vec![SessionRecord { connection_id: "conn-1".to_string(), address: C1.to_string() }]
    );
    assert_eq!(registry.snapshot_entities(EntityType::Player).len(), 1);
}

#[test]
fn second_client_is_announced_to_the_first_only() {
    let mut registry: Registry<Vector> = Registry::new();
    let mut c1: Session<Vector> = Session::new(C1.to_string(), SPAWN);
    perform(c1.step(accepted("conn-1", "E1")), &mut registry);
    let mut c2: Session<Vector> = Session::new(C2.to_string(), SPAWN);
    let (accepts, published) = perform(c2.step(accepted("conn-2", "E2")), &mut registry);
    assert_eq!(accepts.len(), 1);
    assert!(accepts[0].accepted);
    assert_eq!(accepts[0].entity_id, "E2");
    assert_eq!(accepts[0].spawn_data, spawn_data("E2"));
    assert_eq!(published.len(), 1);
    let spawn = published[0].clone();
    assert_eq!(spawn.sender, C2);
    assert_eq!(spawn.ptype, PacketType::Spawn);
    assert_eq!(spawn.data, "spawn:E2");
    assert!(!spawn.send_back);
    assert!(!spawn.owner_only);
    assert_eq!(recipients(&spawn, &vec![C1.to_string(), C2.to_string()]), vec![C1.to_string()]);
    assert_eq!(written(c1.step(Event::Delivery(spawn.clone()))), vec![spawn.clone()]);
    assert_eq!(written(c2.step(Event::Delivery(spawn))), vec![]);
    assert_eq!(registry.snapshot_connections().len(), 2);
    assert_eq!(registry.snapshot_entities(EntityType::Player).len(), 2);
}

#[test]
fn disconnect_clears_the_registry_and_tells_the_other() {
    let mut registry: Registry<Vector> = Registry::new();
    let mut c1: Session<Vector> = Session::new(C1.to_string(), SPAWN);
    perform(c1.step(accepted("conn-1", "E1")), &mut registry);
    let mut c2: Session<Vector> = Session::new(C2.to_string(), SPAWN);
    perform(c2.step(accepted("conn-2", "E2")), &mut registry);

    let (accepts, published) = perform(c1.step(Event::Read { length: 0 }), &mut registry);
    assert_eq!(c1.state(), SessionState::Disconnected);
    assert!(accepts.is_empty());
    assert_eq!(
        registry.snapshot_connections(),
        vec![SessionRecord { connection_id: "conn-2".to_string(), address: C2.to_string() }]
    );
    let players = registry.snapshot_entities(EntityType::Player);
    assert_eq!(players.len(), 1);
    assert_eq!(players[0].id, "E2");
    assert_eq!(published.len(), 1);
    let gone = published[0].clone();
    assert_eq!(gone.sender, C1);
    assert_eq!(gone.ptype, PacketType::Disconnect);
    assert_eq!(gone.data, "disconnect:E1");
    assert_eq!(written(c2.step(Event::Delivery(gone.clone()))), vec![gone.clone()]);
    assert_eq!(written(c1.step(Event::Delivery(gone))), vec![]);
}

#[test]
fn sessions_that_come_and_go_leave_the_registry_empty() {
    let mut registry: Registry<Vector> = Registry::new();
    let mut sessions = Vec::new();
    for i in 0..8 {
        let mut session: Session<Vector> = Session::new(format!("10.0.0.{}:4000", i), SPAWN);
        perform(session.step(accepted(&format!("conn-{}", i), &format!("ent-{}", i))), &mut registry);
        sessions.push(session);
        assert!(registry.snapshot_connections().len() <= sessions.len());
        assert!(registry.snapshot_entities(EntityType::Player).len() <= sessions.len());
    }
    let mut live = sessions.len();
    for session in sessions.iter_mut() {
        perform(session.step(Event::Read { length: 0 }), &mut registry);
        live -= 1;
        assert!(registry.snapshot_connections().len() <= live);
        assert!(registry.snapshot_entities(EntityType::Player).len() <= live);
    }
    assert!(registry.snapshot_connections().is_empty());
    assert!(registry.snapshot_entities(EntityType::Player).is_empty());
    assert!(registry.snapshot_entities(EntityType::Ai).is_empty());
}

#[test]
fn a_whole_life_registers_once_and_unregisters_once() {
    let mut session: Session<Vector> = Session::new(C1.to_string(), SPAWN);
    let events = vec![
        Event::Read { length: 4 },
        accepted("conn-1", "ent-1"),
        accepted("conn-2", "ent-2"),
        Event::Read { length: 4 },
        Event::Delivery(update_from(C2, false, false)),
        Event::Fault(Fault::Write),
        Event::Read { length: 0 },
        Event::Read { length: 0 },
        accepted("conn-3", "ent-3"),
    ];
    let mut registered = 0;
    let mut unregistered = 0;
    for event in events {
        for action in session.step(event) {
            match action {
                Action::Registry(RegistryOp::RegisterEntity(_)) => registered += 1,
                Action::Registry(RegistryOp::UnregisterEntity { .. }) => unregistered += 1,
                _ => {}
            }
        }
        assert!(unregistered <= registered);
    }
    assert_eq!(registered, 1);
    assert_eq!(unregistered, 1);
}
