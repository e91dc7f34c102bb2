use vstd::prelude::*;

verus! {

/// A combat event that the screen animates.
#[derive(Clone, Copy, PartialEq, Eq, Debug, Structural)]
pub enum DisplayAnimation {
    PlayerShootEnemy,
    EnemyShootPlayer,
    PlayerBreakShield,
    EnemyBreakShield,
    PlayerNewShield,
    EnemyNewShield,
    EnemyHeal,
}


/// Where a shot fired by the player starts.
pub const PLAYER_SHOT_START: i32 = 64;

/// Past this position a shot fired by the player has arrived.
pub const PLAYER_SHOT_END: i32 = 190;

/// Where a shot fired by the opponent starts.
pub const ENEMY_SHOT_START: i32 = 176;

/// Below this position a shot fired by the opponent has arrived.
pub const ENEMY_SHOT_END: i32 = 48;

/// Pixels a shot travels per frame.
pub const SHOT_SPEED: i32 = 2;

/// Frames a broken shield takes to dissolve.
pub const SHIELD_BREAK_FRAMES: i32 = 12;

/// Frames a new shield takes to appear.
pub const SHIELD_APPEAR_FRAMES: i32 = 6;

/// Frames the heal pulse lasts.
pub const HEAL_PULSE_FRAMES: i32 = 1;

/// The progress of one animation on screen.
#[derive(Clone, Copy, PartialEq, Eq, Debug, Structural)]
pub enum AnimationState {
    PlayerShootEnemy { x_position: i32 },
    EnemyShootPlayer { x_position: i32 },
    PlayerBreakShield { x_position: i32, shield_break_frame: i32 },
    EnemyBreakShield { x_position: i32, shield_break_frame: i32 },
    PlayerNewShield { shield_frame: i32 },
    EnemyNewShield { shield_frame: i32 },
    EnemyHeal { heal_frame: i32 },
}

/// The animation an event starts.
pub open spec fn started(a: DisplayAnimation) -> AnimationState {
    match a {
        DisplayAnimation::PlayerShootEnemy => AnimationState::PlayerShootEnemy {
            x_position: PLAYER_SHOT_START,
        },
        DisplayAnimation::EnemyShootPlayer => AnimationState::EnemyShootPlayer {
            x_position: ENEMY_SHOT_START,
        },
        DisplayAnimation::PlayerBreakShield => AnimationState::PlayerBreakShield {
            x_position: PLAYER_SHOT_START,
            shield_break_frame: 0,
        },
        DisplayAnimation::EnemyBreakShield => AnimationState::EnemyBreakShield {
            x_position: ENEMY_SHOT_START,
            shield_break_frame: 0,
        },
        DisplayAnimation::PlayerNewShield => AnimationState::PlayerNewShield {
            shield_frame: SHIELD_APPEAR_FRAMES,
        },
        DisplayAnimation::EnemyNewShield => AnimationState::EnemyNewShield {
            shield_frame: SHIELD_APPEAR_FRAMES,
        },
        DisplayAnimation::EnemyHeal => AnimationState::EnemyHeal { heal_frame: 0 },
    }
}

/// One frame of an animation, and whether it has completed.
///
/// A shot moves two pixels towards its target and completes once past it. A
/// breaking shield first lets its shot travel, then counts its dissolve
/// frames and completes when they are done. A new shield counts down to zero,
/// and a heal pulse counts up to its length. A completed animation stays put.
pub open spec fn advanced(s: AnimationState) -> (AnimationState, bool) {
    match s {
        AnimationState::PlayerShootEnemy { x_position } => if x_position > PLAYER_SHOT_END {
            (s, true)
        } else {
            let x = x_position + SHOT_SPEED;
            (AnimationState::PlayerShootEnemy { x_position: x as i32 }, x > PLAYER_SHOT_END)
        },
        AnimationState::EnemyShootPlayer { x_position } => if x_position < ENEMY_SHOT_END {
            (s, true)
        } else {
            let x = x_position - SHOT_SPEED;
            (AnimationState::EnemyShootPlayer { x_position: x as i32 }, x < ENEMY_SHOT_END)
        },
        AnimationState::PlayerBreakShield { x_position, shield_break_frame } => if x_position
            > PLAYER_SHOT_END {
            if shield_break_frame >= SHIELD_BREAK_FRAMES {
                (s, true)
            } else {
                (
                    AnimationState::PlayerBreakShield {
                        x_position,
                        shield_break_frame: (shield_break_frame + 1) as i32,
                    },
                    false,
                )
            }
        } else {
            (
                AnimationState::PlayerBreakShield {
                    x_position: (x_position + SHOT_SPEED) as i32,
                    shield_break_frame,
                },
                false,
            )
        },
        AnimationState::EnemyBreakShield { x_position, shield_break_frame } => if x_position
            < ENEMY_SHOT_END {
            if shield_break_frame >= SHIELD_BREAK_FRAMES {
                (s, true)
            } else {
                (
                    AnimationState::EnemyBreakShield {
                        x_position,
                        shield_break_frame: (shield_break_frame + 1) as i32,
                    },
                    false,
                )
            }
        } else {
            (
                AnimationState::EnemyBreakShield {
                    x_position: (x_position - SHOT_SPEED) as i32,
                    shield_break_frame,
                },
                false,
            )
        },
        AnimationState::PlayerNewShield { shield_frame } => if shield_frame <= 0 {
            (s, true)
        } else {
            (AnimationState::PlayerNewShield { shield_frame: (shield_frame - 1) as i32 }, shield_frame == 1)
        },
        AnimationState::EnemyNewShield { shield_frame } => if shield_frame <= 0 {
            (s, true)
        } else {
            (AnimationState::EnemyNewShield { shield_frame: (shield_frame - 1) as i32 }, shield_frame == 1)
        },
        AnimationState::EnemyHeal { heal_frame } => if heal_frame >= HEAL_PULSE_FRAMES {
            (s, true)
        } else {
            (AnimationState::EnemyHeal { heal_frame: (heal_frame + 1) as i32 }, heal_frame + 1 >= HEAL_PULSE_FRAMES)
        },
    }
}

/// Where the shot of an animation is drawn, while it travels.
pub open spec fn bullet_at(s: AnimationState) -> Option<i32> {
    match s {
        AnimationState::PlayerShootEnemy { x_position } => Some(x_position),
        AnimationState::EnemyShootPlayer { x_position } => Some(x_position),
        AnimationState::PlayerBreakShield { x_position, .. } => if x_position > PLAYER_SHOT_END {
            None
        } else {
            Some(x_position)
        },
        AnimationState::EnemyBreakShield { x_position, .. } => if x_position < ENEMY_SHOT_END {
            None
        } else {
            Some(x_position)
        },
        _ => None,
    }
}

/// The sprite frame of the shield an animation shows: half the dissolve or
/// appear counter, back to the whole shield once dissolved.
pub open spec fn shield_sprite_at(s: AnimationState) -> Option<usize> {
    match s {
        AnimationState::PlayerBreakShield { x_position, shield_break_frame } => if x_position
            <= PLAYER_SHOT_END {
            None
        } else if shield_break_frame >= SHIELD_BREAK_FRAMES || shield_break_frame < 0 {
            Some(0)
        } else {
            Some((shield_break_frame / 2) as usize)
        },
        AnimationState::EnemyBreakShield { x_position, shield_break_frame } => if x_position
            >= ENEMY_SHOT_END {
            None
        } else if shield_break_frame >= SHIELD_BREAK_FRAMES || shield_break_frame < 0 {
            Some(0)
        } else {
            Some((shield_break_frame / 2) as usize)
        },
        AnimationState::PlayerNewShield { shield_frame } => if shield_frame < 0 {
            Some(0)
        } else {
            Some((shield_frame / 2) as usize)
        },
        AnimationState::EnemyNewShield { shield_frame } => if shield_frame < 0 {
            Some(0)
        } else {
            Some((shield_frame / 2) as usize)
        },
        _ => None,
    }
}

impl AnimationState {
    pub fn for_animation(a: DisplayAnimation) -> (r: Self)
        ensures
            r == started(a),
    {
        match a {
            DisplayAnimation::PlayerShootEnemy => AnimationState::PlayerShootEnemy {
                x_position: PLAYER_SHOT_START,
            },
            DisplayAnimation::EnemyShootPlayer => AnimationState::EnemyShootPlayer {
                x_position: ENEMY_SHOT_START,
            },
            DisplayAnimation::PlayerBreakShield => AnimationState::PlayerBreakShield {
                x_position: PLAYER_SHOT_START,
                shield_break_frame: 0,
            },
            DisplayAnimation::EnemyBreakShield => AnimationState::EnemyBreakShield {
                x_position: ENEMY_SHOT_START,
                shield_break_frame: 0,
            },
            DisplayAnimation::PlayerNewShield => AnimationState::PlayerNewShield {
                shield_frame: SHIELD_APPEAR_FRAMES,
            },
            DisplayAnimation::EnemyNewShield => AnimationState::EnemyNewShield {
                shield_frame: SHIELD_APPEAR_FRAMES,
            },
            DisplayAnimation::EnemyHeal => AnimationState::EnemyHeal { heal_frame: 0 },
        }
    }

    /// Advances one frame; returns whether the animation has completed.
    pub fn update(&mut self) -> (done: bool)
        ensures
            (*final(self), done) == advanced(*old(self)),
    {
        match *self {
            AnimationState::PlayerShootEnemy { x_position } => {
                if x_position > PLAYER_SHOT_END {
                    return true;
                }
                let x = x_position + SHOT_SPEED;
                *self = AnimationState::PlayerShootEnemy { x_position: x };
                x > PLAYER_SHOT_END
            },
            AnimationState::EnemyShootPlayer { x_position } => {
                if x_position < ENEMY_SHOT_END {
                    return true;
                }
                let x = x_position - SHOT_SPEED;
                *self = AnimationState::EnemyShootPlayer { x_position: x };
                x < ENEMY_SHOT_END
            },
            AnimationState::PlayerBreakShield { x_position, shield_break_frame } => {
                if x_position > PLAYER_SHOT_END {
                    if shield_break_frame >= SHIELD_BREAK_FRAMES {
                        return true;
                    }
                    *self = AnimationState::PlayerBreakShield {
                        x_position,
                        shield_break_frame: shield_break_frame + 1,
                    };
                } else {
                    *self = AnimationState::PlayerBreakShield {
                        x_position: x_position + SHOT_SPEED,
                        shield_break_frame,
                    };
                }
                false
            },
            AnimationState::EnemyBreakShield { x_position, shield_break_frame } => {
                if x_position < ENEMY_SHOT_END {
                    if shield_break_frame >= SHIELD_BREAK_FRAMES {
                        return true;
                    }
                    *self = AnimationState::EnemyBreakShield {
                        x_position,
                        shield_break_frame: shield_break_frame + 1,
                    };
                } else {
                    *self = AnimationState::EnemyBreakShield {
                        x_position: x_position - SHOT_SPEED,
                        shield_break_frame,
                    };
                }
                false
            },
            AnimationState::PlayerNewShield { shield_frame } => {
                if shield_frame <= 0 {
                    return true;
                }
                *self = AnimationState::PlayerNewShield { shield_frame: shield_frame - 1 };
                shield_frame == 1
            },
            AnimationState::EnemyNewShield { shield_frame } => {
                if shield_frame <= 0 {
                    return true;
                }
                *self = AnimationState::EnemyNewShield { shield_frame: shield_frame - 1 };
                shield_frame == 1
            },
            AnimationState::EnemyHeal { heal_frame } => {
                if heal_frame >= HEAL_PULSE_FRAMES {
                    return true;
                }
                *self = AnimationState::EnemyHeal { heal_frame: heal_frame + 1 };
                heal_frame + 1 >= HEAL_PULSE_FRAMES
            },
        }
    }

    /// Where to draw the shot this frame, if one is travelling.
    pub fn bullet_position(&self) -> (r: Option<i32>)
        ensures
            r == bullet_at(*self),
    {
        match *self {
            AnimationState::PlayerShootEnemy { x_position } => Some(x_position),
            AnimationState::EnemyShootPlayer { x_position } => Some(x_position),
            AnimationState::PlayerBreakShield { x_position, .. } => {
                if x_position > PLAYER_SHOT_END {
                    None
                } else {
                    Some(x_position)
                }
            },
            AnimationState::EnemyBreakShield { x_position, .. } => {
                if x_position < ENEMY_SHOT_END {
                    None
                } else {
                    Some(x_position)
                }
            },
            _ => None,
        }
    }

    /// Which shield sprite frame to draw this frame, if the animation shows a shield.
    pub fn shield_sprite(&self) -> (r: Option<usize>)
        ensures
            r == shield_sprite_at(*self),
    {
        match *self {
            AnimationState::PlayerBreakShield { x_position, shield_break_frame } => {
                if x_position <= PLAYER_SHOT_END {
                    None
                } else {
                    Some(dissolve_sprite(shield_break_frame))
                }
            },
            AnimationState::EnemyBreakShield { x_position, shield_break_frame } => {
                if x_position >= ENEMY_SHOT_END {
                    None
                } else {
                    Some(dissolve_sprite(shield_break_frame))
                }
            },
            AnimationState::PlayerNewShield { shield_frame } => {
                Some(if shield_frame < 0 { 0 } else { (shield_frame / 2) as usize })
            },
            AnimationState::EnemyNewShield { shield_frame } => {
                Some(if shield_frame < 0 { 0 } else { (shield_frame / 2) as usize })
            },
            _ => None,
        }
    }
}

fn dissolve_sprite(frame: i32) -> (r: usize)
    ensures
        r == (if frame >= SHIELD_BREAK_FRAMES || frame < 0 {
            0
        } else {
            (frame / 2) as usize
        }),
{
    if frame >= SHIELD_BREAK_FRAMES || frame < 0 {
        0
    } else {
        (frame / 2) as usize
    }
}

/// The animations left after one frame, in their order: each advanced, the
/// completed ones retired.
pub open spec fn still_running(s: Seq<AnimationState>) -> Seq<AnimationState>
    decreases s.len(),
{
    if s.len() == 0 {
        seq![]
    } else {
        still_running(s.drop_last()) + if advanced(s.last()).1 {
            seq![]
        } else {
            seq![advanced(s.last()).0]
        }
    }
}

/// The animations on screen; they run independently of each other.
#[derive(Clone, Debug)]
pub struct AnimationSequencer {
    pub animations: Vec<AnimationState>,
}

impl AnimationSequencer {
    pub fn new() -> (r: Self)
        ensures
            r.animations@ == Seq::<AnimationState>::empty(),
    {
        AnimationSequencer { animations: Vec::new() }
    }

    /// Starts the animation of event `anim`.
    pub fn add_animation(&mut self, anim: DisplayAnimation)
        ensures
            final(self).animations@ == old(self).animations@.push(started(anim)),
    {
        self.animations.push(AnimationState::for_animation(anim));
    }

    /// Advances every animation one frame and retires those that completed.
    pub fn update(&mut self)
        ensures
            final(self).animations@ == still_running(old(self).animations@),
    {
        let mut running: Vec<AnimationState> = Vec::new();
        let mut i: usize = 0;
        while i < self.animations.len()
            invariant
                i <= self.animations.len(),
                running@ == still_running(self.animations@.subrange(0, i as int)),
            decreases self.animations.len() - i,
        {
            proof {
                assert(self.animations@.subrange(0, i + 1).drop_last() =~= self.animations@.subrange(
                    0,
                    i as int,
                ));
            }
            let mut anim = self.animations[i];
            let done = anim.update();
            if !done {
                running.push(anim);
            }
            i += 1;
        }
        proof {
            assert(self.animations@.subrange(0, self.animations.len() as int) =~= self.animations@);
        }
        self.animations = running;
    }
}

} // verus!
