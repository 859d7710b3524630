//! The audio dispatch decisions. The host owns the clips and the mixer;
//! this module decides, from the tick's gameplay events and which sound
//! classes are already playing, what is to be started: at most one clip per
//! sound class at a time, and a random variant for the sword sounds.

use vstd::prelude::*;
use crate::combat::roll_in_range;

verus! {

/// Which sound classes the host reports as currently playing.
#[derive(Clone, Copy, Debug, PartialEq, Eq, Structural)]
pub struct AudioPlaying {
    pub sword: bool,
    pub bite: bool,
    pub death: bool,
}

/// What the host is to start playing this tick. The sword variants index
/// one of three recorded takes.
#[derive(Clone, Copy, Debug, PartialEq, Eq, Structural)]
pub struct SoundPlan {
    /// Restart the level theme (a game just started).
    pub music: bool,
    pub sword_hit: Option<u8>,
    pub sword_miss: Option<u8>,
    pub bite: bool,
    pub axol_death: bool,
    pub player_death: bool,
}

/// Number of recorded takes of each sword sound.
pub const SWORD_VARIANTS: u8 = 3;

/// Decide what to start playing from this tick's events.
///
/// Music restarts whenever a game starts. Each other class plays only when
/// its event fired and no clip of its class is already playing; hit and
/// miss share the sword class, and both death sounds share the death class.
/// The sword takes are chosen at random.
pub fn plan_sounds(
    game_started: bool,
    sword_hit: bool,
    sword_miss: bool,
    bite: bool,
    axol_died: bool,
    player_died: bool,
    playing: AudioPlaying,
) -> (plan: SoundPlan)
    ensures
        plan.music == game_started,
        (plan.sword_hit is Some) == (sword_hit && !playing.sword),
        plan.sword_hit matches Some(v) ==> v < SWORD_VARIANTS,
        (plan.sword_miss is Some) == (sword_miss && !playing.sword),
        plan.sword_miss matches Some(v) ==> v < SWORD_VARIANTS,
        plan.bite == (bite && !playing.bite),
        plan.axol_death == (axol_died && !playing.death),
        plan.player_death == (player_died && !playing.death),
{
    let hit_variant: Option<u8> = if sword_hit && !playing.sword {
        Some(roll_in_range(0, SWORD_VARIANTS - 1))
    } else {
        None
    };
    let miss_variant: Option<u8> = if sword_miss && !playing.sword {
        Some(roll_in_range(0, SWORD_VARIANTS - 1))
    } else {
        None
    };
    SoundPlan {
        music: game_started,
        sword_hit: hit_variant,
        sword_miss: miss_variant,
        bite: bite && !playing.bite,
        axol_death: axol_died && !playing.death,
        player_death: player_died && !playing.death,
    }
}

} // verus!
