use vstd::prelude::*;

use crate::battle::EnemyAttack;
use crate::face::draw_below;

verus! {

/// The random draws that one scheduling attempt may use.
#[derive(Clone, Copy, PartialEq, Eq, Debug, Structural)]
pub struct AttackDraws {
    /// Decides whether anything spawns.
    pub spawn: i32,
    /// Picks the kind of attack.
    pub kind: i32,
    /// Picks its magnitude.
    pub magnitude: i32,
    /// Picks its cooldown.
    pub cooldown: i32,
}

/// An attack that the opponent schedules, with the frames until it lands.
#[derive(Clone, Copy, PartialEq, Eq, Debug, Structural)]
pub struct GeneratedAttack {
    pub attack: EnemyAttack,
    pub cooldown: u32,
}

/// Shortest cooldown of a scheduled attack.
pub const MIN_ATTACK_COOLDOWN: u32 = 128;

/// Number of distinct cooldowns of a scheduled attack.
pub const ATTACK_COOLDOWN_SPREAD: u32 = 120;

/// Does an attack spawn this frame? The chance is `current_level * 2` in 1024.
pub open spec fn spawns(current_level: u32, draw: i32) -> bool {
    (draw as int) % 1024 < 2 * (current_level as int)
}

/// Kind by weight, shoot : shield : heal = 4 : 5 : 1, magnitude scaled by the level.
pub open spec fn enemy_attack_for(current_level: u32, kind: i32, magnitude: i32) -> EnemyAttack {
    let k = (kind as int) % 10;
    let m = magnitude as int;
    if k < 4 {
        EnemyAttack::Shoot((m % ((current_level as int + 2) / 3) + 1) as u32)
    } else if k < 9 {
        EnemyAttack::Shield((m % ((current_level as int + 4) / 5) + 1) as u32)
    } else {
        EnemyAttack::Heal((m % ((current_level as int + 1) / 2)) as u32)
    }
}

pub open spec fn cooldown_for(draw: i32) -> u32 {
    (MIN_ATTACK_COOLDOWN + (draw as int) % (ATTACK_COOLDOWN_SPREAD as int)) as u32
}

/// What the opponent schedules into an empty slot, if anything.
pub open spec fn generated(current_level: u32, draws: AttackDraws) -> Option<GeneratedAttack> {
    if spawns(current_level, draws.spawn) {
        Some(
            GeneratedAttack {
                attack: enemy_attack_for(current_level, draws.kind, draws.magnitude),
                cooldown: cooldown_for(draws.cooldown),
            },
        )
    } else {
        None
    }
}

/// Maybe schedules an attack for the opponent.
pub fn generate_attack(current_level: u32, draws: AttackDraws) -> (r: Option<GeneratedAttack>)
    ensures
        r == generated(current_level, draws),
        r matches Some(g) ==> MIN_ATTACK_COOLDOWN <= g.cooldown < MIN_ATTACK_COOLDOWN
            + ATTACK_COOLDOWN_SPREAD,
{
    if (draw_below(draws.spawn, 1024) as u64) < 2 * (current_level as u64) {
        Some(
            GeneratedAttack {
                attack: generate_enemy_attack(current_level, draws.kind, draws.magnitude),
                cooldown: generate_cooldown(draws.cooldown),
            },
        )
    } else {
        None
    }
}

/// The attack the opponent schedules at level `current_level`, which is at least one.
pub fn generate_enemy_attack(current_level: u32, kind: i32, magnitude: i32) -> (r: EnemyAttack)
    requires
        current_level >= 1,
    ensures
        r == enemy_attack_for(current_level, kind, magnitude),
{
    let attack_id = draw_below(kind, 10);
    let level = current_level as u64;
    if attack_id < 4 {
        EnemyAttack::Shoot(draw_below(magnitude, ((level + 2) / 3) as u32) + 1)
    } else if attack_id < 9 {
        EnemyAttack::Shield(draw_below(magnitude, ((level + 4) / 5) as u32) + 1)
    } else {
        EnemyAttack::Heal(draw_below(magnitude, ((level + 1) / 2) as u32))
    }
}

/// The frames until a scheduled attack lands.
pub fn generate_cooldown(draw: i32) -> (r: u32)
    ensures
        r == cooldown_for(draw),
        MIN_ATTACK_COOLDOWN <= r < MIN_ATTACK_COOLDOWN + ATTACK_COOLDOWN_SPREAD,
{
    MIN_ATTACK_COOLDOWN + draw_below(draw, ATTACK_COOLDOWN_SPREAD)
}

} // verus!
