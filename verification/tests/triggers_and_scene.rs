use bvj_core::collision::{check_triggers, on_ground, touch_ground, CollisionEvent};
use bvj_core::extras::{apply_gltf_extras, create_colliders, role_action, RoleAction};
use bvj_core::trigger::{sensors_to_despawn, GameTrigger, TriggerParseError};

#[test]
fn speaker_roles_carry_their_lines() {
    let t = GameTrigger::from_prop("Speaker_hello_there").unwrap();
    match t {
        GameTrigger::Speaker(lines) => {
            assert_eq!(lines, vec![String::from("hello"), String::from("there")])
        }
        _ => panic!("expected a speaker trigger"),
    }
}

#[test]
fn a_speaker_role_with_empty_tail_keeps_the_empty_line() {
    let t = GameTrigger::from_prop("Speaker_").unwrap();
    match t {
        GameTrigger::Speaker(lines) => assert_eq!(lines, vec![String::new()]),
        _ => panic!("expected a speaker trigger"),
    }
}

#[test]
fn a_speaker_role_splits_at_the_first_underscore() {
    let t = GameTrigger::from_prop("SpeakerLoud_hi").unwrap();
    match t {
        GameTrigger::Speaker(lines) => assert_eq!(lines, vec![String::from("hi")]),
        _ => panic!("expected a speaker trigger"),
    }
}

#[test]
fn plain_roles_parse_to_their_variant() {
    assert_eq!(GameTrigger::from_prop("ExitLevel"), Ok(GameTrigger::ExitLevel));
    assert_eq!(GameTrigger::from_prop("Sensor_04"), Ok(GameTrigger::Sensor_04));
    assert_eq!(
        GameTrigger::from_prop("LaserWidth_04"),
        Ok(GameTrigger::LaserWidth_04)
    );
    assert_eq!(
        GameTrigger::from_prop("LaserHeight_11"),
        Ok(GameTrigger::LaserHeight_11)
    );
    assert_eq!(
        GameTrigger::from_prop("Bogus"),
        Err(TriggerParseError::UnknownVariant)
    );
}

#[test]
fn trigger_equality_looks_at_the_lines() {
    let a = GameTrigger::Speaker(vec![String::from("a")]);
    let b = GameTrigger::Speaker(vec![String::from("a")]);
    let c = GameTrigger::Speaker(vec![String::from("b")]);
    assert!(a == b);
    assert!(a != c);
    assert!(GameTrigger::ExitLevel != a);
}

#[test]
fn spent_sensors_are_picked_by_trigger() {
    let sensors = vec![
        (7u64, GameTrigger::Sensor_17),
        (8u64, GameTrigger::Sensor_18),
        (9u64, GameTrigger::Sensor_17),
    ];
    assert_eq!(
        sensors_to_despawn(&sensors, &GameTrigger::Sensor_17),
        vec![7, 9]
    );
    assert_eq!(
        sensors_to_despawn(&sensors, &GameTrigger::Sensor_19),
        Vec::<u64>::new()
    );
}

#[test]
fn laser_roles_keep_their_node() {
    match role_action("LaserHeight_11") {
        RoleAction::SpawnTrigger { trigger, keep_node } => {
            assert_eq!(trigger, GameTrigger::LaserHeight_11);
            assert!(keep_node);
        }
        _ => panic!("expected a trigger role"),
    }
    match role_action("Sensor_04") {
        RoleAction::SpawnTrigger { keep_node, .. } => assert!(!keep_node),
        _ => panic!("expected a trigger role"),
    }
}

#[test]
fn placement_roles_are_recognised() {
    assert!(matches!(role_action("PlayerSpawn"), RoleAction::SetPlayerSpawn));
    assert!(matches!(
        role_action("PlayerSpawnLookAt"),
        RoleAction::SetPlayerSpawnLookAt
    ));
    assert!(matches!(role_action("Collider"), RoleAction::SpawnCollider));
    assert!(matches!(role_action("Torch"), RoleAction::Unknown));
    assert!(matches!(role_action("Speaker"), RoleAction::MalformedSpeaker));
}

#[test]
fn node_metadata_is_read_from_json() {
    match apply_gltf_extras("{\"role\":\"Speaker_hi_all\"}") {
        Some(RoleAction::SpawnTrigger { trigger, keep_node }) => {
            assert!(!keep_node);
            match trigger {
                GameTrigger::Speaker(lines) => {
                    assert_eq!(lines, vec![String::from("hi"), String::from("all")])
                }
                _ => panic!("expected a speaker trigger"),
            }
        }
        _ => panic!("expected a trigger role"),
    }
    assert!(matches!(
        apply_gltf_extras("{\"role\":\"Collider\"}"),
        Some(RoleAction::SpawnCollider)
    ));
}

#[test]
fn bad_metadata_yields_nothing() {
    assert!(apply_gltf_extras("not json at all").is_none());
    assert!(apply_gltf_extras("{\"other\":\"Collider\"}").is_none());
    assert!(apply_gltf_extras("{\"role\":5}").is_none());
    assert!(apply_gltf_extras("[\"role\"]").is_none());
}

#[test]
fn the_legs_count_their_contacts() {
    let legs = 3u64;
    let events = vec![
        CollisionEvent::Started(3, 10),
        CollisionEvent::Started(11, 3),
        CollisionEvent::Started(20, 21),
        CollisionEvent::Stopped(10, 3),
    ];
    assert_eq!(touch_ground(0, &events, legs), 1);
    assert_eq!(touch_ground(2, &Vec::new(), legs), 2);
    assert!(on_ground(1));
    assert!(!on_ground(0));
}

#[test]
fn player_overlaps_fire_the_sensors() {
    let player = 1u64;
    let sensors = vec![
        (40u64, GameTrigger::Sensor_04),
        (41u64, GameTrigger::ExitLevel),
    ];
    let events = vec![
        // the player on either side of the contact
        CollisionEvent::Started(1, 40),
        CollisionEvent::Started(41, 1),
        // a lost contact fires nothing
        CollisionEvent::Stopped(1, 40),
        // contacts without the player fire nothing
        CollisionEvent::Started(40, 41),
        // a contact with no sensor fires nothing
        CollisionEvent::Started(1, 99),
    ];
    assert_eq!(check_triggers(&events, player, &sensors), vec![0, 1]);
}

#[test]
fn the_first_endpoint_s_sensor_wins() {
    let player = 40u64;
    // the player itself carries a sensor here, so a contact the player
    // starts resolves to the player's own sensor first
    let sensors = vec![
        (40u64, GameTrigger::Sensor_04),
        (41u64, GameTrigger::ExitLevel),
    ];
    let events = vec![CollisionEvent::Started(40, 41)];
    assert_eq!(check_triggers(&events, player, &sensors), vec![0]);
}

#[test]
fn colliders_are_planned_once_meshes_arrive() {
    let gltf = vec![100u64, 101u64];
    let entities = vec![(1u64, 100u64), (2u64, 555u64), (3u64, 101u64)];

    let done = create_colliders(true, &gltf, &entities);
    assert!(done.targets.is_empty());
    assert!(done.loaded_after);

    let too_early = create_colliders(false, &Vec::new(), &entities);
    assert!(too_early.targets.is_empty());
    assert!(!too_early.loaded_after);

    let plan = create_colliders(false, &gltf, &entities);
    assert_eq!(plan.targets, vec![1, 3]);
    assert!(plan.loaded_after);

    let nothing_matches = create_colliders(false, &gltf, &vec![(9u64, 9u64)]);
    assert!(nothing_matches.targets.is_empty());
    assert!(!nothing_matches.loaded_after);
}
