//! Core game logic of a Cave Story engine: script byte utilities, save-file
//! formats, settings defaults, the NPC list and NPC behaviour state machines.

pub mod bytes;
pub mod common;
pub mod profile;
pub mod save_container;
pub mod settings;
pub mod tsc;
pub mod text;
pub mod aspect_ratio;

pub mod rng;
pub mod npc;
pub mod game_state;
pub mod stage;
pub mod save_csp;
