use relay_core::types::{
    AcceptData, DisconnectData, Entity, EntityType, Packet, PacketType, SessionRecord, SpawnData,
    SpawnPoint,
};

type Vector = [f32; 3];

const SPAWN: SpawnPoint<Vector> = SpawnPoint { position: [1.0, 2.0, 3.0], rotation: [0.0, 180.0, 0.0] };

#[test]
fn spawn_data_takes_the_spawn_point() {
    let data = SpawnData::at(&"E1".to_string(), &SPAWN);
    assert_eq!(
        data,
        SpawnData { entity_id: "E1".to_string(), position: [1.0, 2.0, 3.0], rotation: [0.0, 180.0, 0.0] }
    );
}

#[test]
fn welcome_accepts_with_an_empty_error_message() {
    let accept = AcceptData::welcome(&"E1".to_string(), &SPAWN);
    assert!(accept.accepted);
    assert_eq!(accept.entity_id, "E1");
    assert_eq!(accept.err_message, "");
    assert_eq!(accept.spawn_data, SpawnData::at(&"E1".to_string(), &SPAWN));
}

#[test]
fn player_entity_is_owned_by_its_session() {
    let entity = Entity::player(&"E1".to_string(), &"10.0.0.1:4000".to_string(), &SPAWN);
    assert_eq!(
        entity,
        Entity {
            id: "E1".to_string(),
            entity_type: EntityType::Player,
            owner: "10.0.0.1:4000".to_string(),
            position: [1.0, 2.0, 3.0],
            rotation: [0.0, 180.0, 0.0],
            ai_data: None,
        }
    );
}

#[test]
fn clones_are_equal_to_what_they_were_cloned_from() {
    let packet = Packet {
        sender: "10.0.0.1:4000".to_string(),
        ptype: PacketType::Other(9),
        data: "payload".to_string(),
        send_back: true,
        owner_only: false,
    };
    assert_eq!(packet.clone(), packet);

    let record = SessionRecord { connection_id: "c1".to_string(), address: "a".to_string() };
    assert_eq!(record.clone(), record);

    let entity: Entity<Vector> = Entity {
        id: "e".to_string(),
        entity_type: EntityType::Ai,
        owner: "o".to_string(),
        position: [1.0, 0.0, 0.0],
        rotation: [0.0, 1.0, 0.0],
        ai_data: Some("idle".to_string()),
    };
    assert_eq!(entity.clone(), entity);

    let spawn = SpawnData::at(&"E1".to_string(), &SPAWN);
    assert_eq!(spawn.clone(), spawn);

    let gone = DisconnectData { entity_id: "E1".to_string() };
    assert_eq!(gone.clone(), gone);

    let accept = AcceptData::welcome(&"E1".to_string(), &SPAWN);
    assert_eq!(accept.clone(), accept);

    assert_eq!(SPAWN.clone(), SPAWN);
}

#[test]
fn clone_does_not_share_with_its_source() {
    let packet = Packet {
        sender: "a".to_string(),
        ptype: PacketType::Spawn,
        data: "d".to_string(),
        send_back: false,
        owner_only: false,
    };
    let mut copy = packet.clone();
    copy.data.push('!');
    copy.send_back = true;
    assert_eq!(packet.data, "d");
    assert!(!packet.send_back);
}
