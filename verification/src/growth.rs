//! The grow/shrink mechanic.  The player's body has a height and a width
//! scale; touching a laser (or pressing a debug key) shrinks an axis, and a
//! timer grows it back.  Scales are kept in hundredths, between 50 (half
//! size) and 100 (full size), and move in steps of 2 hundredths per frame.

use vstd::prelude::*;
use crate::game_state::LaserTrigger;

verus! {

/// Full size, in hundredths of the spawn scale.
pub const FULL_SIZE: u32 = 100;

/// Smallest size, in hundredths of the spawn scale.
pub const SMALL_SIZE: u32 = 50;

/// Size change per frame, in hundredths.
pub const GROWTH_STEP: u32 = 2;

/// Where one axis of the body stands in the grow/shrink cycle.
#[derive(Debug, Clone, Copy, PartialEq, Eq, Structural)]
pub enum GrowthState {
    Small,
    Big,
    Increasing,
    Decreasing,
}

/// The current size of the player's body, one value and one growth state per
/// axis, in hundredths of the spawn scale.
#[derive(Debug, Clone, Copy, PartialEq, Eq, Structural)]
pub struct PlayerEffects {
    pub height: u32,
    pub width: u32,
    pub height_state: GrowthState,
    pub width_state: GrowthState,
}

/// Commands for the grow-back timers: a shrink trigger restarts the axis'
/// timer, which later fires and starts the growth.
#[derive(Debug, Clone, Copy, PartialEq, Eq, Structural)]
pub struct TimerCommands {
    pub restart_height_timer: bool,
    pub restart_width_timer: bool,
}

impl PlayerEffects {
    /// Both axes stay between the smallest and the full size.
    pub open spec fn wf(self) -> bool {
        SMALL_SIZE <= self.height <= FULL_SIZE && SMALL_SIZE <= self.width <= FULL_SIZE
    }

    /// The body as it spawns: full size on both axes.
    pub open spec fn spec_spawned() -> PlayerEffects {
        PlayerEffects {
            height: FULL_SIZE,
            width: FULL_SIZE,
            height_state: GrowthState::Big,
            width_state: GrowthState::Big,
        }
    }
}

/// One frame of movement for one axis: while increasing the value rises by
/// one step until it passes full size, where it is pinned to full and the
/// axis settles as big; while decreasing it falls until it passes the
/// smallest size, where it is pinned there and settles as small.
pub open spec fn axis_step(value: u32, state: GrowthState) -> (u32, GrowthState) {
    match state {
        GrowthState::Increasing => {
            if value + GROWTH_STEP > FULL_SIZE {
                (FULL_SIZE, GrowthState::Big)
            } else {
                ((value + GROWTH_STEP) as u32, GrowthState::Increasing)
            }
        },
        GrowthState::Decreasing => {
            if value < SMALL_SIZE + GROWTH_STEP {
                (SMALL_SIZE, GrowthState::Small)
            } else {
                ((value - GROWTH_STEP) as u32, GrowthState::Decreasing)
            }
        },
        _ => (value, state),
    }
}

/// A laser hit starts a shrink on its axis and restarts that axis' timer.
pub open spec fn apply_laser_events(
    e: PlayerEffects,
    cmds: TimerCommands,
    lasers: Seq<LaserTrigger>,
) -> (PlayerEffects, TimerCommands)
    decreases lasers.len(),
{
    if lasers.len() == 0 {
        (e, cmds)
    } else {
        let (e1, c1) = match lasers[0] {
            LaserTrigger::Height => (
                PlayerEffects { height_state: GrowthState::Decreasing, ..e },
                TimerCommands { restart_height_timer: true, ..cmds },
            ),
            LaserTrigger::Width => (
                PlayerEffects { width_state: GrowthState::Decreasing, ..e },
                TimerCommands { restart_width_timer: true, ..cmds },
            ),
        };
        apply_laser_events(e1, c1, lasers.skip(1))
    }
}

/// The debug shrink keys act only on an axis that is fully grown.
pub open spec fn apply_shrink_keys(
    e: PlayerEffects,
    cmds: TimerCommands,
    shrink_height_key: bool,
    shrink_width_key: bool,
) -> (PlayerEffects, TimerCommands) {
    let (e1, c1) = if shrink_height_key && e.height_state == GrowthState::Big {
        (
            PlayerEffects { height_state: GrowthState::Decreasing, ..e },
            TimerCommands { restart_height_timer: true, ..cmds },
        )
    } else {
        (e, cmds)
    };
    if shrink_width_key && e1.width_state == GrowthState::Big {
        (
            PlayerEffects { width_state: GrowthState::Decreasing, ..e1 },
            TimerCommands { restart_width_timer: true, ..c1 },
        )
    } else {
        (e1, c1)
    }
}

/// One whole frame of the size mechanic, in the order the game applies it:
/// the height axis moves first, then a finished timer turns its axis to
/// increasing (so the width axis, which moves last, already grows this very
/// frame), then the width axis moves, then laser hits and debug keys turn
/// axes to decreasing.
pub open spec fn change_size_spec(
    e: PlayerEffects,
    height_timer_finished: bool,
    width_timer_finished: bool,
    lasers: Seq<LaserTrigger>,
    shrink_height_key: bool,
    shrink_width_key: bool,
) -> (PlayerEffects, TimerCommands) {
    let (h1, hs1) = axis_step(e.height, e.height_state);
    let e1 = PlayerEffects { height: h1, height_state: hs1, ..e };
    let e2 = PlayerEffects {
        height_state: if height_timer_finished {
            GrowthState::Increasing
        } else {
            e1.height_state
        },
        width_state: if width_timer_finished {
            GrowthState::Increasing
        } else {
            e1.width_state
        },
        ..e1
    };
    let (w1, ws1) = axis_step(e2.width, e2.width_state);
    let e3 = PlayerEffects { width: w1, width_state: ws1, ..e2 };
    let no_cmds = TimerCommands { restart_height_timer: false, restart_width_timer: false };
    let (e4, c4) = apply_laser_events(e3, no_cmds, lasers);
    apply_shrink_keys(e4, c4, shrink_height_key, shrink_width_key)
}

proof fn lemma_apply_laser_events_keeps_sizes(
    e: PlayerEffects,
    cmds: TimerCommands,
    lasers: Seq<LaserTrigger>,
)
    ensures
        apply_laser_events(e, cmds, lasers).0.height == e.height,
        apply_laser_events(e, cmds, lasers).0.width == e.width,
    decreases lasers.len(),
{
    if lasers.len() != 0 {
        let (e1, c1) = match lasers[0] {
            LaserTrigger::Height => (
                PlayerEffects { height_state: GrowthState::Decreasing, ..e },
                TimerCommands { restart_height_timer: true, ..cmds },
            ),
            LaserTrigger::Width => (
                PlayerEffects { width_state: GrowthState::Decreasing, ..e },
                TimerCommands { restart_width_timer: true, ..cmds },
            ),
        };
        lemma_apply_laser_events_keeps_sizes(e1, c1, lasers.skip(1));
    }
}

/// One frame of one axis, executed.
fn axis_step_exec(value: u32, state: GrowthState) -> (r: (u32, GrowthState))
    requires
        SMALL_SIZE <= value <= FULL_SIZE,
    ensures
        r == axis_step(value, state),
        SMALL_SIZE <= r.0 <= FULL_SIZE,
{
    match state {
        GrowthState::Increasing => {
            if value + GROWTH_STEP > FULL_SIZE {
                (FULL_SIZE, GrowthState::Big)
            } else {
                (value + GROWTH_STEP, GrowthState::Increasing)
            }
        },
        GrowthState::Decreasing => {
            if value < SMALL_SIZE + GROWTH_STEP {
                (SMALL_SIZE, GrowthState::Small)
            } else {
                (value - GROWTH_STEP, GrowthState::Decreasing)
            }
        },
        _ => (value, state),
    }
}

/// One frame of the size mechanic.  The caller ticks the two grow-back
/// timers and passes whether each just finished; laser hits of the frame
/// come as events; the returned commands say which timers to restart
/// (restarting also unpauses a paused timer).
pub fn change_size(
    effects: &mut PlayerEffects,
    height_timer_finished: bool,
    width_timer_finished: bool,
    lasers: &Vec<LaserTrigger>,
    shrink_height_key: bool,
    shrink_width_key: bool,
) -> (cmds: TimerCommands)
    requires
        old(effects).wf(),
    ensures
        (*final(effects), cmds) == change_size_spec(
            *old(effects),
            height_timer_finished,
            width_timer_finished,
            lasers@,
            shrink_height_key,
            shrink_width_key,
        ),
        final(effects).wf(),
{
    let (h1, hs1) = axis_step_exec(effects.height, effects.height_state);
    effects.height = h1;
    effects.height_state = hs1;

    if height_timer_finished {
        effects.height_state = GrowthState::Increasing;
    }
    if width_timer_finished {
        effects.width_state = GrowthState::Increasing;
    }

    let (w1, ws1) = axis_step_exec(effects.width, effects.width_state);
    effects.width = w1;
    effects.width_state = ws1;

    let mut cmds = TimerCommands { restart_height_timer: false, restart_width_timer: false };

    let ghost e3 = *effects;
    let ghost c3 = cmds;

    proof {
        assert(lasers@.skip(0) =~= lasers@);
    }
    let mut i: usize = 0;
    while i < lasers.len()
        invariant
            0 <= i <= lasers.len(),
            apply_laser_events(e3, c3, lasers@) == apply_laser_events(
                *effects,
                cmds,
                lasers@.skip(i as int),
            ),
            effects.height == e3.height,
            effects.width == e3.width,
        decreases lasers.len() - i,
    {
        match lasers[i] {
            LaserTrigger::Height => {
                effects.height_state = GrowthState::Decreasing;
                cmds.restart_height_timer = true;
            },
            LaserTrigger::Width => {
                effects.width_state = GrowthState::Decreasing;
                cmds.restart_width_timer = true;
            },
        }
        i = i + 1;
        proof {
            assert(lasers@.skip(i as int - 1).skip(1) =~= lasers@.skip(i as int));
        }
    }
    proof {
        assert(lasers@.skip(i as int) =~= Seq::<LaserTrigger>::empty());
        lemma_apply_laser_events_keeps_sizes(e3, c3, lasers@);
    }

    if shrink_height_key {
        if effects.height_state == GrowthState::Big {
            effects.height_state = GrowthState::Decreasing;
            cmds.restart_height_timer = true;
        }
    }
    if shrink_width_key {
        if effects.width_state == GrowthState::Big {
            effects.width_state = GrowthState::Decreasing;
            cmds.restart_width_timer = true;
        }
    }
    cmds
}

/// Spawning the player puts the body back at full size on both axes.
pub fn spawn_player(effects: &mut PlayerEffects)
    ensures
        *final(effects) == PlayerEffects::spec_spawned(),
        final(effects).wf(),
{
    effects.height = FULL_SIZE;
    effects.width = FULL_SIZE;
    effects.height_state = GrowthState::Big;
    effects.width_state = GrowthState::Big;
}

/// The post-processing blur follows how far the body is from full size: the
/// strength is `(height + width - FULL_SIZE)` hundredths of the base
/// strength, so a fully grown body keeps the base blur and a shrunken one
/// sharpens the screen.
pub fn change_blur(effects: &PlayerEffects) -> (r: u32)
    requires
        effects.wf(),
    ensures
        r == effects.height + effects.width - FULL_SIZE,
        r <= FULL_SIZE,
{
    effects.height + effects.width - FULL_SIZE
}

} // verus!
