use hyperspace_roll::animation::{AnimationSequencer, AnimationState, DisplayAnimation};

fn frames_until_done(anim: DisplayAnimation) -> u32 {
    let mut state = AnimationState::for_animation(anim);
    let mut frames = 0;
    loop {
        frames += 1;
        if state.update() {
            return frames;
        }
        assert!(frames < 1000);
    }
}

#[test]
fn animations_start_at_their_origin() {
    assert_eq!(
        AnimationState::for_animation(DisplayAnimation::PlayerShootEnemy),
        AnimationState::PlayerShootEnemy { x_position: 64 }
    );
    assert_eq!(
        AnimationState::for_animation(DisplayAnimation::EnemyBreakShield),
        AnimationState::EnemyBreakShield { x_position: 176, shield_break_frame: 0 }
    );
    assert_eq!(
        AnimationState::for_animation(DisplayAnimation::EnemyNewShield),
        AnimationState::EnemyNewShield { shield_frame: 6 }
    );
}

#[test]
fn animation_lengths() {
    assert_eq!(frames_until_done(DisplayAnimation::PlayerShootEnemy), 64);
    assert_eq!(frames_until_done(DisplayAnimation::EnemyShootPlayer), 65);
    assert_eq!(frames_until_done(DisplayAnimation::PlayerBreakShield), 64 + 12 + 1);
    assert_eq!(frames_until_done(DisplayAnimation::EnemyBreakShield), 65 + 12 + 1);
    assert_eq!(frames_until_done(DisplayAnimation::PlayerNewShield), 6);
    assert_eq!(frames_until_done(DisplayAnimation::EnemyNewShield), 6);
    assert_eq!(frames_until_done(DisplayAnimation::EnemyHeal), 1);
}

#[test]
fn shot_moves_two_pixels_a_frame() {
    let mut state = AnimationState::for_animation(DisplayAnimation::EnemyShootPlayer);
    assert_eq!(state.bullet_position(), Some(176));
    assert!(!state.update());
    assert_eq!(state.bullet_position(), Some(174));
    assert_eq!(state.shield_sprite(), None);
}

#[test]
fn breaking_shield_dissolves_after_arrival() {
    let mut state = AnimationState::PlayerBreakShield { x_position: 190, shield_break_frame: 0 };
    assert_eq!(state.bullet_position(), Some(190));
    assert_eq!(state.shield_sprite(), None);
    assert!(!state.update());
    assert_eq!(state.bullet_position(), None);
    assert_eq!(state.shield_sprite(), Some(0));
    for _ in 0..5 {
        assert!(!state.update());
    }
    assert_eq!(state, AnimationState::PlayerBreakShield { x_position: 192, shield_break_frame: 5 });
    assert_eq!(state.shield_sprite(), Some(2));
    for _ in 0..7 {
        assert!(!state.update());
    }
    assert_eq!(state.shield_sprite(), Some(0));
    assert!(state.update());
}

#[test]
fn new_shield_counts_down() {
    let mut state = AnimationState::for_animation(DisplayAnimation::PlayerNewShield);
    assert_eq!(state.shield_sprite(), Some(3));
    state.update();
    assert_eq!(state.shield_sprite(), Some(2));
    assert_eq!(state.bullet_position(), None);
}

#[test]
fn sequencer_retires_finished_animations() {
    let mut seq = AnimationSequencer::new();
    seq.add_animation(DisplayAnimation::EnemyHeal);
    seq.add_animation(DisplayAnimation::PlayerNewShield);
    seq.add_animation(DisplayAnimation::EnemyBreakShield);
    assert_eq!(seq.animations.len(), 3);
    seq.update();
    assert_eq!(
        seq.animations,
        vec![
            AnimationState::PlayerNewShield { shield_frame: 5 },
            AnimationState::EnemyBreakShield { x_position: 174, shield_break_frame: 0 },
        ]
    );
    for _ in 0..5 {
        seq.update();
    }
    assert_eq!(seq.animations.len(), 1);
    for _ in 0..72 {
        seq.update();
    }
    assert!(seq.animations.is_empty());
}
