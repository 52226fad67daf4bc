//! The dialogue sequencer.  The spawn-room speaker reads the script line by
//! line; each game phase ends at a fixed line, and finishing a phase's last
//! line can advance the scripted progression.

use vstd::prelude::*;
use crate::game_state::GameState;

verus! {

/// The dialogue line the spawn dialogue runs to while the player has not
/// entered the testing room.
pub const ON_SPAWN: usize = 2;

/// The last line of the testing-room briefing.
pub const IN_ROOM: usize = 4;

/// The last line of the discussion after the first laser.
pub const AFTER_FIRST_LASER: usize = 10;

/// Where the speaker stands: before the first line, waiting for a started
/// line to be heard, or in the middle of line `n`.
#[derive(Debug, Clone, Copy, PartialEq, Eq, Structural)]
pub enum DialoguePlaying {
    NotStarted,
    StartedButNotPlaying(usize),
    Playing(usize),
}

impl DialoguePlaying {
    /// The sequencer never runs past the last scripted line.
    pub open spec fn wf(self) -> bool {
        match self {
            DialoguePlaying::NotStarted => true,
            DialoguePlaying::StartedButNotPlaying(n) => n <= AFTER_FIRST_LASER,
            DialoguePlaying::Playing(n) => n <= AFTER_FIRST_LASER,
        }
    }
}

/// The line the current phase of the script runs to.
pub open spec fn spec_phase_end(game: GameState) -> usize {
    match game {
        GameState::JustSpawned => ON_SPAWN,
        GameState::InTestingRoom | GameState::TurnOnLaser1 => IN_ROOM,
        GameState::Laser1EffectDiscussion | GameState::TurnOnLaser2 => AFTER_FIRST_LASER,
    }
}

/// The line the current phase of the script runs to, executed.
pub fn phase_end(game: GameState) -> (r: usize)
    ensures
        r == spec_phase_end(game),
{
    match game {
        GameState::JustSpawned => ON_SPAWN,
        GameState::InTestingRoom | GameState::TurnOnLaser1 => IN_ROOM,
        GameState::Laser1EffectDiscussion | GameState::TurnOnLaser2 => AFTER_FIRST_LASER,
    }
}

/// What the subtitle display should do.
#[derive(Debug, Clone, Copy, PartialEq, Eq, Structural)]
pub enum SubtitleCue {
    /// Show the script line with this number.
    Line(usize),
    /// Clear the subtitle.
    Clear,
}

/// One frame of the sequencer: where the speaker stands next, the game state
/// it leaves, the dialogue file to start (by line number), and the subtitle
/// to show.
#[derive(Debug, Clone, Copy, PartialEq)]
pub struct DialogueFrame {
    pub playing: DialoguePlaying,
    pub game: GameState,
    pub play: Option<usize>,
    pub subtitle: Option<SubtitleCue>,
}

/// One frame of the dialogue sequencer:
/// - before the first line, line 0 starts;
/// - a started line shows its subtitle until the channel is heard playing;
/// - when a line finishes, reaching the end of the room briefing or of the
///   laser discussion advances the game state; then the next line of the
///   phase starts, or, past the phase's end, the subtitle is cleared.
///
/// The phase's end is read from the game state the frame began with.
pub open spec fn dialogue_spec(
    playing: DialoguePlaying,
    game: GameState,
    sound_playing: bool,
) -> DialogueFrame {
    let phase = spec_phase_end(game);
    match playing {
        DialoguePlaying::NotStarted => DialogueFrame {
            playing: DialoguePlaying::StartedButNotPlaying(0),
            game: game,
            play: Some(0),
            subtitle: None,
        },
        DialoguePlaying::StartedButNotPlaying(n) => DialogueFrame {
            playing: if sound_playing {
                DialoguePlaying::Playing(n)
            } else {
                DialoguePlaying::StartedButNotPlaying(n)
            },
            game: game,
            play: None,
            subtitle: Some(SubtitleCue::Line(n)),
        },
        DialoguePlaying::Playing(n) => {
            let g2 = if !sound_playing && n == IN_ROOM && game == GameState::InTestingRoom {
                GameState::TurnOnLaser1
            } else if !sound_playing && n == AFTER_FIRST_LASER && game
                == GameState::Laser1EffectDiscussion {
                GameState::TurnOnLaser2
            } else {
                game
            };
            if sound_playing {
                DialogueFrame {
                    playing: DialoguePlaying::Playing(n),
                    game: g2,
                    play: None,
                    subtitle: None,
                }
            } else if n < phase {
                DialogueFrame {
                    playing: DialoguePlaying::StartedButNotPlaying((n + 1) as usize),
                    game: g2,
                    play: Some((n + 1) as usize),
                    subtitle: None,
                }
            } else {
                DialogueFrame {
                    playing: DialoguePlaying::Playing(n),
                    game: g2,
                    play: None,
                    subtitle: Some(SubtitleCue::Clear),
                }
            }
        },
    }
}

/// Finishing a dialogue phase only ever moves the scripted sequence
/// forward.
pub proof fn lemma_dialogue_monotonic(
    playing: DialoguePlaying,
    game: GameState,
    sound_playing: bool,
)
    ensures
        crate::game_state::progress(dialogue_spec(playing, game, sound_playing).game)
            >= crate::game_state::progress(game),
{
}

/// One frame of the dialogue sequencer, executed.  `sound_playing` says
/// whether the speaker's audio channel is currently heard.
pub fn dialogue(playing: DialoguePlaying, game: GameState, sound_playing: bool) -> (r:
    DialogueFrame)
    requires
        playing.wf(),
    ensures
        r == dialogue_spec(playing, game, sound_playing),
        r.playing.wf(),
        (match r.play {
            Some(n) => n <= AFTER_FIRST_LASER,
            None => true,
        }),
{
    let phase = phase_end(game);
    match playing {
        DialoguePlaying::NotStarted => DialogueFrame {
            playing: DialoguePlaying::StartedButNotPlaying(0),
            game: game,
            play: Some(0),
            subtitle: None,
        },
        DialoguePlaying::StartedButNotPlaying(n) => DialogueFrame {
            playing: if sound_playing {
                DialoguePlaying::Playing(n)
            } else {
                DialoguePlaying::StartedButNotPlaying(n)
            },
            game: game,
            play: None,
            subtitle: Some(SubtitleCue::Line(n)),
        },
        DialoguePlaying::Playing(n) => {
            let g2 = if !sound_playing && n == IN_ROOM && game == GameState::InTestingRoom {
                GameState::TurnOnLaser1
            } else if !sound_playing && n == AFTER_FIRST_LASER && game
                == GameState::Laser1EffectDiscussion {
                GameState::TurnOnLaser2
            } else {
                game
            };
            if sound_playing {
                DialogueFrame {
                    playing: DialoguePlaying::Playing(n),
                    game: g2,
                    play: None,
                    subtitle: None,
                }
            } else if n < phase {
                DialogueFrame {
                    playing: DialoguePlaying::StartedButNotPlaying(n + 1),
                    game: g2,
                    play: Some(n + 1),
                    subtitle: None,
                }
            } else {
                DialogueFrame {
                    playing: DialoguePlaying::Playing(n),
                    game: g2,
                    play: None,
                    subtitle: Some(SubtitleCue::Clear),
                }
            }
        },
    }
}

} // verus!
