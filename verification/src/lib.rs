//! Core logic of a 2D top-down wave-survival action game: per-actor health
//! and animation state machines, melee combat resolution, enemy wave
//! scheduling, the overall game-state machine, and the tile walkability gate
//! that movement consults. Rendering, audio output, asset loading and input
//! devices are left to a host engine; this crate works on plain values that
//! such a host reads and writes.

pub mod actor;
pub mod audio;
pub mod axol;
pub mod combat;
pub mod events;
pub mod game;
pub mod spawner;
pub mod nowalk;
pub mod player;
pub mod player_movement;
pub mod score;
pub mod sprite;
pub mod timer;
pub mod world;
