//! Scene-node metadata.  Level nodes carry a JSON blob whose `role` field
//! says what the node is: a sensor volume, the player spawn, a bare
//! collider.  The blob is read with serde_json; everything decided from the
//! role string is verified here.

use vstd::prelude::*;
use crate::strings::{split_chars, str_eq, str_starts_with, find_char};
use crate::trigger::{GameTrigger, unit_trigger_of};

verus! {

/// The string at top-level key `key` of the JSON document `s`, if `s` is a
/// JSON object with a string there; parsing is a function of the text alone.
pub uninterp spec fn json_str_field(s: Seq<char>, key: Seq<char>) -> Option<Seq<char>>;

/// Relies on serde_json::from_str, Value::get and Value::as_str: reads the
/// string under `key` in the JSON document `s`, or nothing when `s` does not
/// parse or holds no string there.
#[verifier::external_body]
fn get_json_str_field(s: &str, key: &str) -> (r: Option<String>)
    ensures
        r is Some <==> json_str_field(s@, key@) is Some,
        (match r {
            Some(v) => json_str_field(s@, key@) == Some(v@),
            None => true,
        }),
{
    let value: serde_json::Value = serde_json::from_str(s).ok()?;
    Some(value.get(key)?.as_str()?.to_string())
}

/// What a node's role asks the loader to do.
#[derive(Debug)]
pub enum RoleAction {
    /// Give each of the node's meshes a sensor collider firing this trigger;
    /// a laser node stays visible in the scene, every other sensor node is
    /// removed once its sensors exist.
    SpawnTrigger { trigger: GameTrigger, keep_node: bool },
    /// The node marks where the player spawns.
    SetPlayerSpawn,
    /// The node marks where a freshly spawned player looks.
    SetPlayerSpawnLookAt,
    /// Give each of the node's meshes a fixed collider.
    SpawnCollider,
    /// The role names nothing; the loader only warns.
    Unknown,
    /// A speaker role without an underscore carries no lines to speak.
    MalformedSpeaker,
}

/// What the action for a role string must be: a speaker role spawns a
/// speaker trigger carrying the lines after the first underscore; any other
/// trigger name spawns its trigger, kept in the scene exactly for the
/// lasers; the three remaining known roles place the player or a collider;
/// everything else is unknown.
pub open spec fn role_action_rel(role: Seq<char>, r: RoleAction) -> bool {
    if "Speaker"@.is_prefix_of(role) {
        if role.contains('_') {
            match r {
                RoleAction::SpawnTrigger { trigger, keep_node } => (match trigger {
                    GameTrigger::Speaker(lines) => lines.deep_view() == split_chars(
                        role,
                        '_',
                    ).skip(1),
                    _ => false,
                }) && keep_node == "Laser"@.is_prefix_of(role),
                _ => false,
            }
        } else {
            r is MalformedSpeaker
        }
    } else {
        match unit_trigger_of(role) {
            Some(t) => match r {
                RoleAction::SpawnTrigger { trigger, keep_node } => trigger == t && keep_node
                    == "Laser"@.is_prefix_of(role),
                _ => false,
            },
            None => r == (if role == "PlayerSpawn"@ {
                RoleAction::SetPlayerSpawn
            } else if role == "PlayerSpawnLookAt"@ {
                RoleAction::SetPlayerSpawnLookAt
            } else if role == "Collider"@ {
                RoleAction::SpawnCollider
            } else {
                RoleAction::Unknown
            }),
        }
    }
}

/// Decide what a role string asks for.
pub fn role_action(role: &str) -> (r: RoleAction)
    ensures
        role_action_rel(role@, r),
{
    if str_starts_with(role, "Speaker") {
        match find_char(role, '_') {
            None => {
                return RoleAction::MalformedSpeaker;
            },
            Some(_) => {},
        }
    }
    match GameTrigger::from_prop(role) {
        Ok(t) => {
            let keep = str_starts_with(role, "Laser");
            RoleAction::SpawnTrigger { trigger: t, keep_node: keep }
        },
        Err(_) => {
            if str_eq(role, "PlayerSpawn") {
                RoleAction::SetPlayerSpawn
            } else if str_eq(role, "PlayerSpawnLookAt") {
                RoleAction::SetPlayerSpawnLookAt
            } else if str_eq(role, "Collider") {
                RoleAction::SpawnCollider
            } else {
                RoleAction::Unknown
            }
        },
    }
}

/// Read a node's JSON metadata and decide what its role asks for: nothing
/// when the blob does not parse or has no role, else the role's action.
pub fn apply_gltf_extras(extras: &str) -> (r: Option<RoleAction>)
    ensures
        r is Some <==> json_str_field(extras@, "role"@) is Some,
        (match r {
            Some(act) => role_action_rel(json_str_field(extras@, "role"@).unwrap(), act),
            None => true,
        }),
{
    match get_json_str_field(extras, "role") {
        Some(role) => Some(role_action(role.as_str())),
        None => None,
    }
}

/// The entities that get a collider: those whose mesh came from the loaded
/// scene, in table order.
pub open spec fn collider_targets(entities: Seq<(u64, u64)>, gltf_meshes: Seq<u64>) -> Seq<u64>
    decreases entities.len(),
{
    if entities.len() == 0 {
        Seq::empty()
    } else {
        let head = collider_targets(entities.drop_last(), gltf_meshes);
        if gltf_meshes.contains(entities.last().1) {
            head.push(entities.last().0)
        } else {
            head
        }
    }
}

/// The loader's plan for one pass over the level: the entities to give a
/// fixed collider, and whether the level now counts as loaded.
#[derive(Debug, PartialEq)]
pub struct ColliderPlan {
    pub targets: Vec<u64>,
    pub loaded_after: bool,
}

fn contains_id(haystack: &Vec<u64>, x: u64) -> (r: bool)
    ensures
        r == haystack@.contains(x),
{
    let mut i: usize = 0;
    while i < haystack.len()
        invariant
            0 <= i <= haystack@.len(),
            forall|k: int| 0 <= k < i ==> haystack@[k] != x,
        decreases haystack@.len() - i,
    {
        if haystack[i] == x {
            return true;
        }
        i = i + 1;
    }
    false
}

/// Plan one pass of collider creation.  Nothing happens while the level is
/// already loaded, or before any scene mesh exists; otherwise every entity
/// whose mesh came from the scene gets a collider, and the level counts as
/// loaded as soon as one collider was made.  `entity_meshes` pairs each
/// entity with its mesh.
pub fn create_colliders(
    loaded: bool,
    gltf_mesh_ids: &Vec<u64>,
    entity_meshes: &Vec<(u64, u64)>,
) -> (r: ColliderPlan)
    ensures
        loaded ==> r.targets@.len() == 0 && r.loaded_after,
        !loaded && gltf_mesh_ids@.len() == 0 ==> r.targets@.len() == 0 && !r.loaded_after,
        !loaded && gltf_mesh_ids@.len() > 0 ==> r.targets@ == collider_targets(
            entity_meshes@,
            gltf_mesh_ids@,
        ) && r.loaded_after == (r.targets@.len() > 0),
{
    if loaded {
        return ColliderPlan { targets: Vec::new(), loaded_after: true };
    }
    if gltf_mesh_ids.len() == 0 {
        return ColliderPlan { targets: Vec::new(), loaded_after: false };
    }
    let mut targets: Vec<u64> = Vec::new();
    let mut i: usize = 0;
    proof {
        assert(entity_meshes@.take(0) =~= Seq::<(u64, u64)>::empty());
    }
    while i < entity_meshes.len()
        invariant
            0 <= i <= entity_meshes@.len(),
            targets@ == collider_targets(entity_meshes@.take(i as int), gltf_mesh_ids@),
        decreases entity_meshes@.len() - i,
    {
        if contains_id(gltf_mesh_ids, entity_meshes[i].1) {
            targets.push(entity_meshes[i].0);
        }
        proof {
            assert(entity_meshes@.take(i + 1).drop_last() =~= entity_meshes@.take(i as int));
            assert(entity_meshes@.take(i + 1).last() == entity_meshes@[i as int]);
        }
        i = i + 1;
    }
    proof {
        assert(entity_meshes@.take(entity_meshes@.len() as int) =~= entity_meshes@);
    }
    let loaded_after = targets.len() > 0;
    ColliderPlan { targets, loaded_after }
}

} // verus!
