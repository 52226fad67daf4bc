use bvj_core::app_state::{back_to_menu, grab_mouse, restart, start_game, AppState, CursorState};
use bvj_core::dialogue::{dialogue, phase_end, DialoguePlaying, SubtitleCue};
use bvj_core::game_state::{
    process_trigger, process_triggers, show_lasers, GameState, LaserTrigger, ShowOn,
};
use bvj_core::trigger::GameTrigger;

#[test]
fn space_starts_the_game_from_the_menu() {
    assert_eq!(start_game(true), Some(AppState::InGame));
    assert_eq!(start_game(false), None);
}

#[test]
fn menu_key_leaves_the_game() {
    assert_eq!(back_to_menu(true), Some(AppState::Menu));
    assert_eq!(back_to_menu(false), None);
}

#[test]
fn space_restarts_from_the_finish_screen() {
    assert_eq!(restart(true), Some(AppState::InGame));
    assert_eq!(restart(false), None);
}

#[test]
fn clicking_grabs_and_escape_releases_the_cursor() {
    assert_eq!(grab_mouse(false, false), None);
    assert_eq!(
        grab_mouse(true, false),
        Some(CursorState { visible: false, locked: true })
    );
    assert_eq!(
        grab_mouse(false, true),
        Some(CursorState { visible: true, locked: false })
    );
    assert_eq!(
        grab_mouse(true, true),
        Some(CursorState { visible: true, locked: false })
    );
}

#[test]
fn lasers_show_only_in_their_state() {
    assert!(show_lasers(
        GameState::TurnOnLaser1,
        ShowOn(GameState::TurnOnLaser1)
    ));
    assert!(!show_lasers(
        GameState::JustSpawned,
        ShowOn(GameState::TurnOnLaser1)
    ));
}

#[test]
fn exit_trigger_ends_the_level() {
    let st = process_trigger(GameState::TurnOnLaser2, &GameTrigger::ExitLevel);
    assert_eq!(st.app, Some(AppState::Finish));
    assert_eq!(st.game, GameState::TurnOnLaser2);
    assert_eq!(st.laser, None);
}

#[test]
fn room_sensor_moves_a_fresh_player_into_the_room() {
    let st = process_trigger(GameState::JustSpawned, &GameTrigger::Sensor_04);
    assert_eq!(st.game, GameState::InTestingRoom);
    let st2 = process_trigger(GameState::TurnOnLaser1, &GameTrigger::Sensor_04);
    assert_eq!(st2.game, GameState::TurnOnLaser1);
}

#[test]
fn width_laser_advances_the_discussion_and_fires() {
    let st = process_trigger(GameState::TurnOnLaser1, &GameTrigger::LaserWidth_04);
    assert_eq!(st.game, GameState::Laser1EffectDiscussion);
    assert_eq!(st.laser, Some(LaserTrigger::Width));
}

#[test]
fn width_laser_is_harmless_before_the_lasers_are_live() {
    let st = process_trigger(GameState::JustSpawned, &GameTrigger::LaserWidth);
    assert_eq!(st.game, GameState::JustSpawned);
    assert_eq!(st.laser, None);
}

#[test]
fn height_laser_fires_only_once_the_second_laser_is_on() {
    let st = process_trigger(GameState::TurnOnLaser2, &GameTrigger::LaserHeight);
    assert_eq!(st.laser, Some(LaserTrigger::Height));
    let st2 = process_trigger(GameState::TurnOnLaser1, &GameTrigger::LaserHeight_11);
    assert_eq!(st2.laser, None);
}

#[test]
fn numbered_speakers_play_once_and_are_spent() {
    let st = process_trigger(GameState::InTestingRoom, &GameTrigger::Sensor_17);
    assert_eq!(st.voice, Some(16));
    assert!(st.despawn);
    let st2 = process_trigger(GameState::InTestingRoom, &GameTrigger::Sensor_19);
    assert_eq!(st2.voice, Some(18));
    assert!(st2.despawn);
}

#[test]
fn a_batch_of_events_threads_the_state_through() {
    let events = vec![
        GameTrigger::Sensor_04,
        GameTrigger::Sensor_18,
        GameTrigger::Speaker(vec![String::from("hello")]),
        GameTrigger::ExitLevel,
    ];
    let out = process_triggers(GameState::JustSpawned, &events);
    assert_eq!(out.game, GameState::InTestingRoom);
    assert_eq!(out.app, Some(AppState::Finish));
    assert_eq!(out.lasers, Vec::<LaserTrigger>::new());
    assert_eq!(out.voices, vec![17]);
    assert_eq!(out.despawn_events, vec![1]);
}

#[test]
fn phase_ends_follow_the_game_state() {
    assert_eq!(phase_end(GameState::JustSpawned), 2);
    assert_eq!(phase_end(GameState::InTestingRoom), 4);
    assert_eq!(phase_end(GameState::TurnOnLaser1), 4);
    assert_eq!(phase_end(GameState::Laser1EffectDiscussion), 10);
    assert_eq!(phase_end(GameState::TurnOnLaser2), 10);
}

#[test]
fn dialogue_starts_with_the_first_line() {
    let f = dialogue(DialoguePlaying::NotStarted, GameState::JustSpawned, false);
    assert_eq!(f.playing, DialoguePlaying::StartedButNotPlaying(0));
    assert_eq!(f.play, Some(0));
    assert_eq!(f.subtitle, None);
    assert_eq!(f.game, GameState::JustSpawned);
}

#[test]
fn a_started_line_shows_its_subtitle_until_heard() {
    let f = dialogue(
        DialoguePlaying::StartedButNotPlaying(1),
        GameState::JustSpawned,
        false,
    );
    assert_eq!(f.playing, DialoguePlaying::StartedButNotPlaying(1));
    assert_eq!(f.subtitle, Some(SubtitleCue::Line(1)));
    let heard = dialogue(
        DialoguePlaying::StartedButNotPlaying(1),
        GameState::JustSpawned,
        true,
    );
    assert_eq!(heard.playing, DialoguePlaying::Playing(1));
    assert_eq!(heard.subtitle, Some(SubtitleCue::Line(1)));
}

#[test]
fn a_finished_line_starts_the_next_one_of_the_phase() {
    let f = dialogue(DialoguePlaying::Playing(0), GameState::JustSpawned, false);
    assert_eq!(f.playing, DialoguePlaying::StartedButNotPlaying(1));
    assert_eq!(f.play, Some(1));
}

#[test]
fn past_the_phase_end_the_subtitle_clears() {
    let f = dialogue(DialoguePlaying::Playing(2), GameState::JustSpawned, false);
    assert_eq!(f.playing, DialoguePlaying::Playing(2));
    assert_eq!(f.play, None);
    assert_eq!(f.subtitle, Some(SubtitleCue::Clear));
}

#[test]
fn finishing_the_room_briefing_turns_on_the_first_laser() {
    let f = dialogue(DialoguePlaying::Playing(4), GameState::InTestingRoom, false);
    assert_eq!(f.game, GameState::TurnOnLaser1);
    assert_eq!(f.play, None);
    assert_eq!(f.subtitle, Some(SubtitleCue::Clear));
}

#[test]
fn finishing_the_discussion_turns_on_the_second_laser() {
    let f = dialogue(
        DialoguePlaying::Playing(10),
        GameState::Laser1EffectDiscussion,
        false,
    );
    assert_eq!(f.game, GameState::TurnOnLaser2);
}

#[test]
fn the_discussion_continues_past_the_old_phase_once_advanced() {
    // After the first laser's discussion begins, line 4 sits below the new
    // phase end, so the script plays on.
    let f = dialogue(
        DialoguePlaying::Playing(4),
        GameState::Laser1EffectDiscussion,
        false,
    );
    assert_eq!(f.playing, DialoguePlaying::StartedButNotPlaying(5));
    assert_eq!(f.play, Some(5));
}

#[test]
fn a_playing_line_is_left_alone() {
    let f = dialogue(DialoguePlaying::Playing(3), GameState::TurnOnLaser1, true);
    assert_eq!(f.playing, DialoguePlaying::Playing(3));
    assert_eq!(f.play, None);
    assert_eq!(f.subtitle, None);
}
