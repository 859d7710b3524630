use axol::audio::{AudioPlaying, plan_sounds};

fn silence() -> AudioPlaying {
    AudioPlaying { sword: false, bite: false, death: false }
}

#[test]
fn sword_hit_picks_one_of_three_takes() {
    let plan = plan_sounds(false, true, false, false, false, false, silence());
    let v = plan.sword_hit.expect("a hit with the sword class free must play");
    assert!(v < 3);
    assert!(plan.sword_miss.is_none());
    assert!(!plan.bite);
}

#[test]
fn only_one_clip_per_class_at_a_time() {
    let busy = AudioPlaying { sword: true, bite: true, death: true };
    let plan = plan_sounds(false, true, true, true, true, true, busy);
    assert!(plan.sword_hit.is_none());
    assert!(plan.sword_miss.is_none());
    assert!(!plan.bite);
    assert!(!plan.axol_death);
    assert!(!plan.player_death);
}

#[test]
fn death_sounds_share_their_class() {
    let playing_death = AudioPlaying { sword: false, bite: false, death: true };
    let plan = plan_sounds(false, false, false, false, true, true, playing_death);
    assert!(!plan.axol_death);
    assert!(!plan.player_death);
    let plan = plan_sounds(false, false, false, false, true, false, silence());
    assert!(plan.axol_death);
    assert!(!plan.player_death);
}

#[test]
fn music_restarts_when_a_game_starts() {
    let plan = plan_sounds(true, false, false, false, false, false, silence());
    assert!(plan.music);
    let plan = plan_sounds(false, false, false, false, false, false, silence());
    assert!(!plan.music);
}

#[test]
fn bite_sound_follows_the_bite_event() {
    let plan = plan_sounds(false, false, false, true, false, false, silence());
    assert!(plan.bite);
}
