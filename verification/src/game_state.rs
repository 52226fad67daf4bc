//! The scripted in-level progression: a linear game state advanced by sensor
//! volumes and finished dialogue phases, and the decisions hung off it.

use vstd::prelude::*;
use crate::app_state::AppState;
use crate::trigger::GameTrigger;

verus! {

/// Where the player stands in the scripted sequence, from spawning to the
/// second laser.
#[derive(Debug, Clone, Copy, PartialEq, Eq, Structural)]
pub enum GameState {
    JustSpawned,
    InTestingRoom,
    TurnOnLaser1,
    Laser1EffectDiscussion,
    TurnOnLaser2,
}

/// Which axis a laser beam shrinks when the player crosses it.
#[derive(Debug, Clone, Copy, PartialEq, Eq, Structural)]
pub enum LaserTrigger {
    Height,
    Width,
}

/// Carried by a laser's scene node: the game state from which the laser is
/// shown.
#[derive(Debug, Clone, Copy, PartialEq, Eq, Structural)]
pub struct ShowOn(pub GameState);

/// A laser becomes visible exactly in the game state its node asks for.
pub fn show_lasers(game_state: GameState, show_on: ShowOn) -> (r: bool)
    ensures
        r == (game_state == show_on.0),
{
    game_state == show_on.0
}

/// How far along the scripted sequence a state is.
pub open spec fn progress(game: GameState) -> int {
    match game {
        GameState::JustSpawned => 0,
        GameState::InTestingRoom => 1,
        GameState::TurnOnLaser1 => 2,
        GameState::Laser1EffectDiscussion => 3,
        GameState::TurnOnLaser2 => 4,
    }
}

/// What one trigger event does: the game state it leaves, the screen it
/// switches to, the laser hit it fires, the one-shot dialogue it plays (as
/// an index into the dialogue files), and whether the sensors that fired it
/// are spent and despawn.
#[derive(Debug, Clone, Copy, PartialEq)]
pub struct TriggerStep {
    pub game: GameState,
    pub app: Option<AppState>,
    pub laser: Option<LaserTrigger>,
    pub voice: Option<usize>,
    pub despawn: bool,
}

/// The scripted progression, one event at a time:
/// - crossing the exit ends the level;
/// - the first room sensor moves a freshly spawned player into the testing
///   room;
/// - a width laser advances the first-laser discussion when crossed at the
///   right moment, and shrinks the player once the lasers are live;
/// - a height laser shrinks the player only once the second laser is on;
/// - the three numbered speaker sensors play their dialogue once and are
///   spent.
pub open spec fn step_spec(game: GameState, event: GameTrigger) -> TriggerStep {
    match event {
        GameTrigger::ExitLevel => TriggerStep {
            game: game,
            app: Some(AppState::Finish),
            laser: None,
            voice: None,
            despawn: false,
        },
        GameTrigger::Sensor_04 => TriggerStep {
            game: if game == GameState::JustSpawned {
                GameState::InTestingRoom
            } else {
                game
            },
            app: None,
            laser: None,
            voice: None,
            despawn: false,
        },
        GameTrigger::LaserWidth | GameTrigger::LaserWidth_04 => {
            let g2 = if event is LaserWidth_04 && game == GameState::TurnOnLaser1 {
                GameState::Laser1EffectDiscussion
            } else {
                game
            };
            let fire = g2 == GameState::TurnOnLaser1 || g2 == GameState::Laser1EffectDiscussion
                || g2 == GameState::TurnOnLaser2;
            TriggerStep {
                game: g2,
                app: None,
                laser: if fire {
                    Some(LaserTrigger::Width)
                } else {
                    None
                },
                voice: None,
                despawn: false,
            }
        },
        GameTrigger::LaserHeight | GameTrigger::LaserHeight_11 => TriggerStep {
            game: game,
            app: None,
            laser: if game == GameState::TurnOnLaser2 {
                Some(LaserTrigger::Height)
            } else {
                None
            },
            voice: None,
            despawn: false,
        },
        GameTrigger::Sensor_17 => TriggerStep {
            game: game,
            app: None,
            laser: None,
            voice: Some(16),
            despawn: true,
        },
        GameTrigger::Sensor_18 => TriggerStep {
            game: game,
            app: None,
            laser: None,
            voice: Some(17),
            despawn: true,
        },
        GameTrigger::Sensor_19 => TriggerStep {
            game: game,
            app: None,
            laser: None,
            voice: Some(18),
            despawn: true,
        },
        GameTrigger::Speaker(_) => TriggerStep {
            game: game,
            app: None,
            laser: None,
            voice: None,
            despawn: false,
        },
    }
}

/// One trigger event, executed.
pub fn process_trigger(game: GameState, event: &GameTrigger) -> (r: TriggerStep)
    ensures
        r == step_spec(game, *event),
{
    match event {
        GameTrigger::ExitLevel => TriggerStep {
            game: game,
            app: Some(AppState::Finish),
            laser: None,
            voice: None,
            despawn: false,
        },
        GameTrigger::Sensor_04 => TriggerStep {
            game: if game == GameState::JustSpawned {
                GameState::InTestingRoom
            } else {
                game
            },
            app: None,
            laser: None,
            voice: None,
            despawn: false,
        },
        GameTrigger::LaserWidth => {
            let fire = game == GameState::TurnOnLaser1 || game == GameState::Laser1EffectDiscussion
                || game == GameState::TurnOnLaser2;
            TriggerStep {
                game: game,
                app: None,
                laser: if fire {
                    Some(LaserTrigger::Width)
                } else {
                    None
                },
                voice: None,
                despawn: false,
            }
        },
        GameTrigger::LaserWidth_04 => {
            let g2 = if game == GameState::TurnOnLaser1 {
                GameState::Laser1EffectDiscussion
            } else {
                game
            };
            let fire = g2 == GameState::TurnOnLaser1 || g2 == GameState::Laser1EffectDiscussion
                || g2 == GameState::TurnOnLaser2;
            TriggerStep {
                game: g2,
                app: None,
                laser: if fire {
                    Some(LaserTrigger::Width)
                } else {
                    None
                },
                voice: None,
                despawn: false,
            }
        },
        GameTrigger::LaserHeight | GameTrigger::LaserHeight_11 => TriggerStep {
            game: game,
            app: None,
            laser: if game == GameState::TurnOnLaser2 {
                Some(LaserTrigger::Height)
            } else {
                None
            },
            voice: None,
            despawn: false,
        },
        GameTrigger::Sensor_17 => TriggerStep {
            game: game,
            app: None,
            laser: None,
            voice: Some(16),
            despawn: true,
        },
        GameTrigger::Sensor_18 => TriggerStep {
            game: game,
            app: None,
            laser: None,
            voice: Some(17),
            despawn: true,
        },
        GameTrigger::Sensor_19 => TriggerStep {
            game: game,
            app: None,
            laser: None,
            voice: Some(18),
            despawn: true,
        },
        GameTrigger::Speaker(_) => TriggerStep {
            game: game,
            app: None,
            laser: None,
            voice: None,
            despawn: false,
        },
    }
}

/// The scripted sequence is linear: no trigger event ever moves the game
/// state backward.
pub proof fn lemma_step_monotonic(game: GameState, event: GameTrigger)
    ensures
        progress(step_spec(game, event).game) >= progress(game),
{
}

/// The run of a whole batch of trigger events: the state threads through
/// them in order, the last screen switch wins, and the fired lasers, played
/// dialogues and spent events pile up in order.
pub struct TriggerFold {
    pub game: GameState,
    pub app: Option<AppState>,
    pub lasers: Seq<LaserTrigger>,
    pub voices: Seq<usize>,
    pub despawn_events: Seq<int>,
}

/// Folding the per-event step over a batch of events.
pub open spec fn process_fold(game: GameState, events: Seq<GameTrigger>) -> TriggerFold
    decreases events.len(),
{
    if events.len() == 0 {
        TriggerFold {
            game: game,
            app: None,
            lasers: Seq::empty(),
            voices: Seq::empty(),
            despawn_events: Seq::empty(),
        }
    } else {
        let prev = process_fold(game, events.drop_last());
        let st = step_spec(prev.game, events.last());
        TriggerFold {
            game: st.game,
            app: if st.app is Some {
                st.app
            } else {
                prev.app
            },
            lasers: prev.lasers + (match st.laser {
                Some(l) => seq![l],
                None => Seq::empty(),
            }),
            voices: prev.voices + (match st.voice {
                Some(v) => seq![v],
                None => Seq::empty(),
            }),
            despawn_events: prev.despawn_events + if st.despawn {
                seq![events.len() - 1]
            } else {
                Seq::empty()
            },
        }
    }
}

/// What a batch of trigger events amounts to.  `despawn_events` lists the
/// positions, in the batch, of the events whose sensors are spent: the
/// caller despawns every sensor carrying an equal trigger.
#[derive(Debug, PartialEq)]
pub struct ProcessOutcome {
    pub game: GameState,
    pub app: Option<AppState>,
    pub lasers: Vec<LaserTrigger>,
    pub voices: Vec<usize>,
    pub despawn_events: Vec<usize>,
}

/// Run the scripted progression over the trigger events of one frame.
pub fn process_triggers(game: GameState, events: &Vec<GameTrigger>) -> (r: ProcessOutcome)
    ensures
        r.game == process_fold(game, events@).game,
        r.app == process_fold(game, events@).app,
        r.lasers@ == process_fold(game, events@).lasers,
        r.voices@ == process_fold(game, events@).voices,
        r.despawn_events@.map_values(|u: usize| u as int) == process_fold(
            game,
            events@,
        ).despawn_events,
{
    let mut game_now = game;
    let mut app: Option<AppState> = None;
    let mut lasers: Vec<LaserTrigger> = Vec::new();
    let mut voices: Vec<usize> = Vec::new();
    let mut despawns: Vec<usize> = Vec::new();
    let mut i: usize = 0;
    proof {
        assert(events@.take(0) =~= Seq::<GameTrigger>::empty());
        assert(despawns@.map_values(|u: usize| u as int) =~= Seq::<int>::empty());
    }
    while i < events.len()
        invariant
            0 <= i <= events@.len(),
            game_now == process_fold(game, events@.take(i as int)).game,
            app == process_fold(game, events@.take(i as int)).app,
            lasers@ == process_fold(game, events@.take(i as int)).lasers,
            voices@ == process_fold(game, events@.take(i as int)).voices,
            despawns@.map_values(|u: usize| u as int) == process_fold(
                game,
                events@.take(i as int),
            ).despawn_events,
        decreases events@.len() - i,
    {
        let st = process_trigger(game_now, &events[i]);
        let ghost old_lasers = lasers@;
        let ghost old_voices = voices@;
        let ghost old_despawns = despawns@;
        game_now = st.game;
        match st.app {
            Some(a) => {
                app = Some(a);
            },
            None => {},
        }
        match st.laser {
            Some(l) => {
                lasers.push(l);
            },
            None => {},
        }
        match st.voice {
            Some(v) => {
                voices.push(v);
            },
            None => {},
        }
        if st.despawn {
            despawns.push(i);
        }
        proof {
            assert(events@.take(i + 1).drop_last() =~= events@.take(i as int));
            assert(events@.take(i + 1).last() == events@[i as int]);
            assert(lasers@ =~= process_fold(game, events@.take(i + 1)).lasers);
            assert(voices@ =~= process_fold(game, events@.take(i + 1)).voices);
            assert(despawns@.map_values(|u: usize| u as int) =~= process_fold(
                game,
                events@.take(i + 1),
            ).despawn_events);
        }
        i = i + 1;
    }
    proof {
        assert(events@.take(events@.len() as int) =~= events@);
    }
    ProcessOutcome { game: game_now, app: app, lasers: lasers, voices: voices, despawn_events: despawns }
}

} // verus!
