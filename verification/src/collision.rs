//! Collision-driven dispatch: counting what the player's legs touch, and
//! turning overlaps between the player and sensor volumes into trigger
//! events.  Entities are identified by plain ids.

use vstd::prelude::*;
use crate::trigger::GameTrigger;

verus! {

/// A physics contact event between two entities.
#[derive(Debug, Clone, Copy, PartialEq, Eq, Structural)]
pub enum CollisionEvent {
    Started(u64, u64),
    Stopped(u64, u64),
}

/// The legs' contact count after a batch of events: one up for each contact
/// the legs gain, one down for each they lose.
pub open spec fn ground_count(c: int, events: Seq<CollisionEvent>, legs: u64) -> int
    decreases events.len(),
{
    if events.len() == 0 {
        c
    } else {
        let p = ground_count(c, events.drop_last(), legs);
        match events.last() {
            CollisionEvent::Started(e1, e2) => if e1 == legs || e2 == legs {
                p + 1
            } else {
                p
            },
            CollisionEvent::Stopped(e1, e2) => if e1 == legs || e2 == legs {
                p - 1
            } else {
                p
            },
        }
    }
}

/// Update the legs' contact count over the contact events of one frame.
/// The physics engine pairs every lost contact with an earlier gained one,
/// so the count never falls below zero on the way.
pub fn touch_ground(touching: usize, events: &Vec<CollisionEvent>, legs: u64) -> (r: usize)
    requires
        forall|i: int|
            0 <= i <= events@.len() ==> 0 <= #[trigger] ground_count(
                touching as int,
                events@.take(i),
                legs,
            ) <= usize::MAX,
    ensures
        r == ground_count(touching as int, events@, legs),
{
    let mut count = touching;
    let mut i: usize = 0;
    proof {
        assert(events@.take(0) =~= Seq::<CollisionEvent>::empty());
    }
    while i < events.len()
        invariant
            0 <= i <= events@.len(),
            count == ground_count(touching as int, events@.take(i as int), legs),
            forall|k: int|
                0 <= k <= events@.len() ==> 0 <= #[trigger] ground_count(
                    touching as int,
                    events@.take(k),
                    legs,
                ) <= usize::MAX,
        decreases events@.len() - i,
    {
        proof {
            assert(events@.take(i + 1).drop_last() =~= events@.take(i as int));
            assert(events@.take(i + 1).last() == events@[i as int]);
            assert(0 <= ground_count(touching as int, events@.take(i + 1), legs) <= usize::MAX);
        }
        match events[i] {
            CollisionEvent::Started(e1, e2) => {
                if e1 == legs || e2 == legs {
                    count = count + 1;
                }
            },
            CollisionEvent::Stopped(e1, e2) => {
                if e1 == legs || e2 == legs {
                    count = count - 1;
                }
            },
        }
        i = i + 1;
    }
    proof {
        assert(events@.take(events@.len() as int) =~= events@);
    }
    count
}

/// The player can push off the ground exactly while the legs touch
/// something.
pub fn on_ground(touching: usize) -> (r: bool)
    ensures
        r == (touching != 0),
{
    touching != 0
}

/// The first sensor of the table that belongs to entity `e`.
pub open spec fn find_sensor(sensors: Seq<(u64, GameTrigger)>, e: u64) -> Option<int>
    decreases sensors.len(),
{
    if sensors.len() == 0 {
        None
    } else if sensors[0].0 == e {
        Some(0)
    } else {
        match find_sensor(sensors.skip(1), e) {
            Some(j) => Some(j + 1),
            None => None,
        }
    }
}

proof fn lemma_find_sensor_at(sensors: Seq<(u64, GameTrigger)>, e: u64, i: int)
    requires
        0 <= i < sensors.len(),
        sensors[i].0 == e,
        forall|k: int| 0 <= k < i ==> sensors[k].0 != e,
    ensures
        find_sensor(sensors, e) == Some(i),
    decreases i,
{
    if i > 0 {
        lemma_find_sensor_at(sensors.skip(1), e, i - 1);
    }
}

proof fn lemma_find_sensor_none(sensors: Seq<(u64, GameTrigger)>, e: u64)
    requires
        forall|k: int| 0 <= k < sensors.len() ==> sensors[k].0 != e,
    ensures
        find_sensor(sensors, e) == None::<int>,
    decreases sensors.len(),
{
    if sensors.len() > 0 {
        lemma_find_sensor_none(sensors.skip(1), e);
    }
}

/// The first sensor of the table that belongs to entity `e`, executed.
fn find_sensor_exec(sensors: &Vec<(u64, GameTrigger)>, e: u64) -> (r: Option<usize>)
    ensures
        match r {
            Some(i) => find_sensor(sensors@, e) == Some(i as int),
            None => find_sensor(sensors@, e) == None::<int>,
        },
{
    let mut i: usize = 0;
    while i < sensors.len()
        invariant
            0 <= i <= sensors@.len(),
            forall|k: int| 0 <= k < i ==> sensors@[k].0 != e,
        decreases sensors@.len() - i,
    {
        if sensors[i].0 == e {
            proof {
                lemma_find_sensor_at(sensors@, e, i as int);
            }
            return Some(i);
        }
        i = i + 1;
    }
    proof {
        lemma_find_sensor_none(sensors@, e);
    }
    None
}

/// Which sensor a contact event fires: for a contact gained between the
/// player and another entity, the first sensor of either endpoint, trying
/// the first endpoint first.
pub open spec fn fired_by_event(
    event: CollisionEvent,
    player: u64,
    sensors: Seq<(u64, GameTrigger)>,
) -> Option<int> {
    match event {
        CollisionEvent::Started(e1, e2) => if e1 == player || e2 == player {
            if find_sensor(sensors, e1) is Some {
                find_sensor(sensors, e1)
            } else {
                find_sensor(sensors, e2)
            }
        } else {
            None
        },
        CollisionEvent::Stopped(_, _) => None,
    }
}

/// The sensors a batch of contact events fires, in order, as positions in
/// the sensor table.
pub open spec fn fired_spec(
    events: Seq<CollisionEvent>,
    player: u64,
    sensors: Seq<(u64, GameTrigger)>,
) -> Seq<int>
    decreases events.len(),
{
    if events.len() == 0 {
        Seq::empty()
    } else {
        fired_spec(events.drop_last(), player, sensors) + (match fired_by_event(
            events.last(),
            player,
            sensors,
        ) {
            Some(j) => seq![j],
            None => Seq::empty(),
        })
    }
}

/// Turn the contact events of one frame into fired triggers: each contact
/// gained between the player and a sensor volume fires that sensor, given as
/// its position in the sensor table.
pub fn check_triggers(
    events: &Vec<CollisionEvent>,
    player: u64,
    sensors: &Vec<(u64, GameTrigger)>,
) -> (r: Vec<usize>)
    ensures
        r@.map_values(|u: usize| u as int) == fired_spec(events@, player, sensors@),
        forall|k: int| 0 <= k < r@.len() ==> r@[k] < sensors@.len(),
{
    let mut r: Vec<usize> = Vec::new();
    let mut i: usize = 0;
    proof {
        assert(events@.take(0) =~= Seq::<CollisionEvent>::empty());
        assert(r@.map_values(|u: usize| u as int) =~= Seq::<int>::empty());
        lemma_find_sensor_bounds_all(sensors@);
    }
    while i < events.len()
        invariant
            0 <= i <= events@.len(),
            r@.map_values(|u: usize| u as int) == fired_spec(
                events@.take(i as int),
                player,
                sensors@,
            ),
            forall|k: int| 0 <= k < r@.len() ==> r@[k] < sensors@.len(),
        decreases events@.len() - i,
    {
        proof {
            assert(events@.take(i + 1).drop_last() =~= events@.take(i as int));
            assert(events@.take(i + 1).last() == events@[i as int]);
        }
        let ghost old_map = r@.map_values(|u: usize| u as int);
        match events[i] {
            CollisionEvent::Started(e1, e2) => {
                if e1 == player || e2 == player {
                    let hit = match find_sensor_exec(sensors, e1) {
                        Some(j) => Some(j),
                        None => find_sensor_exec(sensors, e2),
                    };
                    match hit {
                        Some(j) => {
                            proof {
                                lemma_find_sensor_bound(sensors@, e1);
                                lemma_find_sensor_bound(sensors@, e2);
                            }
                            r.push(j);
                            proof {
                                assert(r@.map_values(|u: usize| u as int) =~= old_map.push(
                                    j as int,
                                ));
                            }
                        },
                        None => {},
                    }
                }
            },
            CollisionEvent::Stopped(_, _) => {},
        }
        i = i + 1;
    }
    proof {
        assert(events@.take(events@.len() as int) =~= events@);
    }
    r
}

proof fn lemma_find_sensor_bound(sensors: Seq<(u64, GameTrigger)>, e: u64)
    ensures
        match find_sensor(sensors, e) {
            Some(j) => 0 <= j < sensors.len(),
            None => true,
        },
    decreases sensors.len(),
{
    if sensors.len() > 0 && sensors[0].0 != e {
        lemma_find_sensor_bound(sensors.skip(1), e);
    }
}

proof fn lemma_find_sensor_bounds_all(sensors: Seq<(u64, GameTrigger)>)
    ensures
        forall|e: u64|
            #![trigger find_sensor(sensors, e)]
            match find_sensor(sensors, e) {
                Some(j) => 0 <= j < sensors.len(),
                None => true,
            },
{
    assert forall|e: u64|
        #![trigger find_sensor(sensors, e)]
        match find_sensor(sensors, e) {
            Some(j) => 0 <= j < sensors.len(),
            None => true,
        } by {
        lemma_find_sensor_bound(sensors, e);
    }
}

} // verus!
