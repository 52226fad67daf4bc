use bvj_core::audio::{audio_file, dialogue_path, AUDIO_FILE_COUNT};
use bvj_core::game_state::LaserTrigger;
use bvj_core::growth::{
    change_blur, change_size, spawn_player, GrowthState, PlayerEffects, FULL_SIZE, SMALL_SIZE,
};
use bvj_core::hud::{test_subtitle, update_subtitle, SubtitleTrigger};

fn full_grown() -> PlayerEffects {
    PlayerEffects {
        height: FULL_SIZE,
        width: FULL_SIZE,
        height_state: GrowthState::Big,
        width_state: GrowthState::Big,
    }
}

#[test]
fn spawning_resets_the_body_to_full_size() {
    let mut e = PlayerEffects {
        height: 60,
        width: 50,
        height_state: GrowthState::Decreasing,
        width_state: GrowthState::Small,
    };
    spawn_player(&mut e);
    assert_eq!(e, full_grown());
}

#[test]
fn a_laser_hit_starts_a_shrink_and_restarts_the_timer() {
    let mut e = full_grown();
    let cmds = change_size(&mut e, false, false, &vec![LaserTrigger::Height], false, false);
    assert_eq!(e.height_state, GrowthState::Decreasing);
    assert_eq!(e.height, FULL_SIZE);
    assert!(cmds.restart_height_timer);
    assert!(!cmds.restart_width_timer);

    let cmds2 = change_size(&mut e, false, false, &vec![LaserTrigger::Width], false, false);
    assert_eq!(e.width_state, GrowthState::Decreasing);
    assert!(cmds2.restart_width_timer);
    // the height axis went on shrinking meanwhile
    assert_eq!(e.height, FULL_SIZE - 2);
}

#[test]
fn shrinking_stops_at_half_size() {
    let mut e = full_grown();
    e.height_state = GrowthState::Decreasing;
    let mut frames = 0;
    while e.height_state == GrowthState::Decreasing && frames < 100 {
        change_size(&mut e, false, false, &Vec::new(), false, false);
        frames += 1;
    }
    assert_eq!(e.height, SMALL_SIZE);
    assert_eq!(e.height_state, GrowthState::Small);
    // 100 -> 98 -> ... -> 50 in steps of 2, then one more frame to settle
    assert_eq!(frames, 26);
}

#[test]
fn growing_back_stops_at_full_size() {
    let mut e = full_grown();
    e.width = SMALL_SIZE;
    e.width_state = GrowthState::Small;
    // the grow-back timer fires
    change_size(&mut e, false, true, &Vec::new(), false, false);
    assert_eq!(e.width_state, GrowthState::Increasing);
    // the width axis moves after the timer check, so it grew this frame
    assert_eq!(e.width, SMALL_SIZE + 2);
    let mut frames = 0;
    while e.width_state == GrowthState::Increasing && frames < 100 {
        change_size(&mut e, false, false, &Vec::new(), false, false);
        frames += 1;
    }
    assert_eq!(e.width, FULL_SIZE);
    assert_eq!(e.width_state, GrowthState::Big);
}

#[test]
fn the_height_axis_moves_before_the_timer_check() {
    let mut e = full_grown();
    e.height = SMALL_SIZE;
    e.height_state = GrowthState::Small;
    e.width = SMALL_SIZE;
    e.width_state = GrowthState::Small;
    // both timers fire in the same frame
    change_size(&mut e, true, true, &Vec::new(), false, false);
    // height turns to increasing only after its axis already moved ...
    assert_eq!(e.height_state, GrowthState::Increasing);
    assert_eq!(e.height, SMALL_SIZE);
    // ... while width moves after the check and grew at once
    assert_eq!(e.width_state, GrowthState::Increasing);
    assert_eq!(e.width, SMALL_SIZE + 2);
}

#[test]
fn the_debug_keys_shrink_only_a_fully_grown_axis() {
    let mut e = full_grown();
    let cmds = change_size(&mut e, false, false, &Vec::new(), true, false);
    assert_eq!(e.height_state, GrowthState::Decreasing);
    assert!(cmds.restart_height_timer);

    let mut shrunk = full_grown();
    shrunk.width_state = GrowthState::Decreasing;
    let cmds2 = change_size(&mut shrunk, false, false, &Vec::new(), false, true);
    assert_eq!(shrunk.width_state, GrowthState::Decreasing);
    assert!(!cmds2.restart_width_timer);
}

#[test]
fn blur_follows_the_distance_from_full_size() {
    let mut e = full_grown();
    assert_eq!(change_blur(&e), FULL_SIZE);
    e.height = SMALL_SIZE;
    e.width = SMALL_SIZE;
    assert_eq!(change_blur(&e), 0);
    e.height = 75;
    e.width = FULL_SIZE;
    assert_eq!(change_blur(&e), 75);
}

#[test]
fn every_script_line_has_a_file() {
    assert_eq!(audio_file(0), Some("01-doc1.ogg"));
    assert_eq!(audio_file(16), Some("17-doc2.ogg"));
    assert_eq!(audio_file(18), Some("19-doc1.ogg"));
    assert_eq!(audio_file(AUDIO_FILE_COUNT), None);
}

#[test]
fn dialogue_paths_live_under_the_dialogue_directory() {
    assert_eq!(
        dialogue_path(16).as_deref(),
        Some("sounds/dialogues/17-doc2.ogg")
    );
    assert_eq!(dialogue_path(19), None);
}

#[test]
fn the_last_subtitle_event_wins() {
    assert_eq!(update_subtitle(&Vec::new()), None);
    let events = vec![
        SubtitleTrigger(String::from("first")),
        SubtitleTrigger(String::from("second")),
    ];
    assert_eq!(update_subtitle(&events).as_deref(), Some("second"));
}

#[test]
fn the_debug_subtitle_keys_send_their_lines() {
    assert!(test_subtitle(false, false).is_empty());
    let both = test_subtitle(true, true);
    assert_eq!(both.len(), 2);
    assert_eq!(both[0].0, "TEST");
    assert_eq!(both[1].0, "");
    let only_clear = test_subtitle(false, true);
    assert_eq!(only_clear.len(), 1);
    assert_eq!(only_clear[0].0, "");
}
