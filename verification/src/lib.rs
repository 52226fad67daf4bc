//! Core logic of a small first-person puzzle game: the screen-level state
//! machine, the scripted in-level progression, the dialogue sequencer, the
//! grow/shrink size mechanic, collision-driven trigger dispatch, and the
//! parsing of scene-node roles.
//!
//! Every function here carries a contract; the engine-facing glue (rendering,
//! physics stepping, audio playback, input polling) lives outside the library
//! and feeds it plain values.

pub mod app_state;
pub mod audio;
pub mod collision;
pub mod dialogue;
pub mod extras;
pub mod game_state;
pub mod growth;
pub mod hud;
pub mod strings;
pub mod trigger;
