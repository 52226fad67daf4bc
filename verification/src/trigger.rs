//! The trigger volumes of the level.  Each sensor node carries a role string
//! naming a trigger; crossing the sensor fires the trigger as an event.

use vstd::prelude::*;
use crate::strings::{split_chars, str_eq, str_starts_with, find_char, split_str};
use vstd::string::StrSliceExecFns;

verus! {

/// A sensor volume's meaning, and the event it fires when the player crosses
/// it.  The numbered variants are named after the scene nodes that carry
/// them.
#[allow(non_camel_case_types)]
#[derive(Debug, Clone)]
pub enum GameTrigger {
    ExitLevel,
    Sensor_04,
    Speaker(Vec<String>),
    LaserWidth,
    LaserWidth_04,
    LaserHeight,
    LaserHeight_11,
    Sensor_17,
    Sensor_18,
    Sensor_19,
}

/// Equality of triggers: same variant, and for a speaker the same lines.
pub open spec fn trig_eq(a: GameTrigger, b: GameTrigger) -> bool {
    match (a, b) {
        (GameTrigger::ExitLevel, GameTrigger::ExitLevel) => true,
        (GameTrigger::Sensor_04, GameTrigger::Sensor_04) => true,
        (GameTrigger::Speaker(x), GameTrigger::Speaker(y)) => x.deep_view() == y.deep_view(),
        (GameTrigger::LaserWidth, GameTrigger::LaserWidth) => true,
        (GameTrigger::LaserWidth_04, GameTrigger::LaserWidth_04) => true,
        (GameTrigger::LaserHeight, GameTrigger::LaserHeight) => true,
        (GameTrigger::LaserHeight_11, GameTrigger::LaserHeight_11) => true,
        (GameTrigger::Sensor_17, GameTrigger::Sensor_17) => true,
        (GameTrigger::Sensor_18, GameTrigger::Sensor_18) => true,
        (GameTrigger::Sensor_19, GameTrigger::Sensor_19) => true,
        _ => false,
    }
}

/// Equality of two lists of lines.
fn vec_string_eq(x: &Vec<String>, y: &Vec<String>) -> (r: bool)
    ensures
        r == (x.deep_view() == y.deep_view()),
{
    if x.len() != y.len() {
        proof {
            assert(x.deep_view().len() == x@.len());
            assert(y.deep_view().len() == y@.len());
        }
        return false;
    }
    let mut i: usize = 0;
    while i < x.len()
        invariant
            x@.len() == y@.len(),
            0 <= i <= x@.len(),
            forall|k: int| 0 <= k < i ==> x@[k]@ == y@[k]@,
        decreases x@.len() - i,
    {
        if !(x[i] == y[i]) {
            proof {
                assert(x.deep_view()[i as int] == x@[i as int].deep_view());
                assert(y.deep_view()[i as int] == y@[i as int].deep_view());
            }
            return false;
        }
        i = i + 1;
    }
    proof {
        assert(x.deep_view() =~~= y.deep_view());
    }
    true
}

impl PartialEq for GameTrigger {
    fn eq(&self, other: &GameTrigger) -> (r: bool) {
        match (self, other) {
            (GameTrigger::ExitLevel, GameTrigger::ExitLevel) => true,
            (GameTrigger::Sensor_04, GameTrigger::Sensor_04) => true,
            (GameTrigger::Speaker(x), GameTrigger::Speaker(y)) => vec_string_eq(x, y),
            (GameTrigger::LaserWidth, GameTrigger::LaserWidth) => true,
            (GameTrigger::LaserWidth_04, GameTrigger::LaserWidth_04) => true,
            (GameTrigger::LaserHeight, GameTrigger::LaserHeight) => true,
            (GameTrigger::LaserHeight_11, GameTrigger::LaserHeight_11) => true,
            (GameTrigger::Sensor_17, GameTrigger::Sensor_17) => true,
            (GameTrigger::Sensor_18, GameTrigger::Sensor_18) => true,
            (GameTrigger::Sensor_19, GameTrigger::Sensor_19) => true,
            _ => false,
        }
    }
}

impl vstd::std_specs::cmp::PartialEqSpecImpl for GameTrigger {
    open spec fn obeys_eq_spec() -> bool {
        true
    }

    open spec fn eq_spec(&self, other: &GameTrigger) -> bool {
        trig_eq(*self, *other)
    }
}

/// Why a role string is not a trigger.
#[derive(Debug, Clone, Copy, PartialEq, Eq, Structural)]
pub enum TriggerParseError {
    /// The string names none of the trigger variants.
    UnknownVariant,
}

/// What a role string that is none of the speaker roles parses to: exactly
/// the name of a plain trigger variant.
pub open spec fn unit_trigger_of(s: Seq<char>) -> Option<GameTrigger> {
    if s == "ExitLevel"@ {
        Some(GameTrigger::ExitLevel)
    } else if s == "Sensor_04"@ {
        Some(GameTrigger::Sensor_04)
    } else if s == "LaserWidth"@ {
        Some(GameTrigger::LaserWidth)
    } else if s == "LaserWidth_04"@ {
        Some(GameTrigger::LaserWidth_04)
    } else if s == "LaserHeight"@ {
        Some(GameTrigger::LaserHeight)
    } else if s == "LaserHeight_11"@ {
        Some(GameTrigger::LaserHeight_11)
    } else if s == "Sensor_17"@ {
        Some(GameTrigger::Sensor_17)
    } else if s == "Sensor_18"@ {
        Some(GameTrigger::Sensor_18)
    } else if s == "Sensor_19"@ {
        Some(GameTrigger::Sensor_19)
    } else {
        None
    }
}

impl GameTrigger {
    /// Parse a sensor node's role string.  A role starting with `Speaker`
    /// holds the speaker's lines after the first underscore, separated by
    /// underscores; every other role must name a trigger variant exactly.
    /// A speaker role must contain an underscore.
    pub fn from_prop(s: &str) -> (r: Result<GameTrigger, TriggerParseError>)
        requires
            "Speaker"@.is_prefix_of(s@) ==> exists|k: int| 0 <= k < s@.len() && s@[k] == '_',
        ensures
            "Speaker"@.is_prefix_of(s@) ==> (match r {
                Ok(t) => match t {
                    GameTrigger::Speaker(lines) => lines.deep_view() == split_chars(
                        s@,
                        '_',
                    ).skip(1),
                    _ => false,
                },
                Err(_) => false,
            }),
            !"Speaker"@.is_prefix_of(s@) ==> r == (match unit_trigger_of(s@) {
                Some(t) => Ok::<GameTrigger, TriggerParseError>(t),
                None => Err::<GameTrigger, TriggerParseError>(TriggerParseError::UnknownVariant),
            }),
    {
        if str_starts_with(s, "Speaker") {
            let idx = match find_char(s, '_') {
                Some(i) => i,
                None => vstd::pervasive::unreached(),
            };
            let len = s.unicode_len();
            let rest = s.substring_char(idx + 1, len);
            let lines = split_str(rest, '_');
            proof {
                crate::strings::lemma_split_chars_first(s@, '_', idx as int);
                assert(s@.skip(idx + 1) =~= s@.subrange(idx + 1, len as int));
                assert(split_chars(s@, '_').skip(1) =~~= split_chars(s@.skip(idx + 1), '_'));
            }
            Ok(GameTrigger::Speaker(lines))
        } else if str_eq(s, "ExitLevel") {
            Ok(GameTrigger::ExitLevel)
        } else if str_eq(s, "Sensor_04") {
            Ok(GameTrigger::Sensor_04)
        } else if str_eq(s, "LaserWidth") {
            Ok(GameTrigger::LaserWidth)
        } else if str_eq(s, "LaserWidth_04") {
            Ok(GameTrigger::LaserWidth_04)
        } else if str_eq(s, "LaserHeight") {
            Ok(GameTrigger::LaserHeight)
        } else if str_eq(s, "LaserHeight_11") {
            Ok(GameTrigger::LaserHeight_11)
        } else if str_eq(s, "Sensor_17") {
            Ok(GameTrigger::Sensor_17)
        } else if str_eq(s, "Sensor_18") {
            Ok(GameTrigger::Sensor_18)
        } else if str_eq(s, "Sensor_19") {
            Ok(GameTrigger::Sensor_19)
        } else {
            Err(TriggerParseError::UnknownVariant)
        }
    }
}

/// Which sensors fire the same trigger as `event`: their entities, in table
/// order.  The state machine despawns these when a one-shot speaker sensor
/// fires.
pub open spec fn despawn_spec(sensors: Seq<(u64, GameTrigger)>, event: GameTrigger) -> Seq<u64>
    decreases sensors.len(),
{
    if sensors.len() == 0 {
        Seq::empty()
    } else {
        let head = despawn_spec(sensors.drop_last(), event);
        if trig_eq(sensors.last().1, event) {
            head.push(sensors.last().0)
        } else {
            head
        }
    }
}

/// The entities of the sensors whose trigger equals `event`.
pub fn sensors_to_despawn(sensors: &Vec<(u64, GameTrigger)>, event: &GameTrigger) -> (r: Vec<u64>)
    ensures
        r@ == despawn_spec(sensors@, *event),
{
    let mut r: Vec<u64> = Vec::new();
    let mut i: usize = 0;
    proof {
        assert(sensors@.take(0) =~= Seq::<(u64, GameTrigger)>::empty());
    }
    while i < sensors.len()
        invariant
            0 <= i <= sensors@.len(),
            r@ == despawn_spec(sensors@.take(i as int), *event),
        decreases sensors@.len() - i,
    {
        if sensors[i].1.eq(event) {
            r.push(sensors[i].0);
        }
        proof {
            assert(sensors@.take(i + 1).drop_last() =~= sensors@.take(i as int));
            assert(sensors@.take(i + 1).last() == sensors@[i as int]);
        }
        i = i + 1;
    }
    proof {
        assert(sensors@.take(sensors@.len() as int) =~= sensors@);
    }
    r
}

} // verus!
