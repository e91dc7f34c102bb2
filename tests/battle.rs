use hyperspace_roll::animation::DisplayAnimation;
use hyperspace_roll::battle::{
    next_die, previous_die, triangular_power, CurrentBattleState, EnemyAttack, EnemyAttackState,
    EnemyAttackType, EnemyState, PlayerState,
};
use hyperspace_roll::dice::{DieState, RolledDice, RolledDie, ROLL_TIME_FRAMES_ALL};
use hyperspace_roll::face::{Die, Face, PlayerDice};
use hyperspace_roll::generation::AttackDraws;

fn plain_die() -> Die {
    Die {
        faces: [Face::Shoot, Face::Shield, Face::Blank, Face::Malfunction, Face::Blank, Face::Blank],
    }
}

fn locked(face: Face) -> DieState {
    DieState::Rolled(RolledDie { face, cooldown: 0 })
}

fn battle_with(rolls: Vec<DieState>) -> CurrentBattleState {
    let n = rolls.len();
    CurrentBattleState {
        player: PlayerState { shield_count: 0, health: 120, max_health: 120 },
        enemy: EnemyState { shield_count: 0, health: 50, max_health: 50 },
        rolled_dice: RolledDice { rolls },
        player_dice: PlayerDice { dice: vec![plain_die(); n] },
        attacks: [None, None],
        current_level: 1,
    }
}

fn no_spawn() -> AttackDraws {
    AttackDraws { spawn: 1023, kind: 0, magnitude: 0, cooldown: 0 }
}

#[test]
fn end_to_end_accept() {
    let mut state = battle_with(vec![locked(Face::Shoot), locked(Face::Shoot), locked(Face::Shield)]);
    let events = state.accept_rolls(&vec![0, 1, 2]);
    assert_eq!(events, vec![DisplayAnimation::PlayerNewShield, DisplayAnimation::PlayerShootEnemy]);
    assert_eq!(state.player.shield_count, 1);
    assert_eq!(state.player.health, 120);
    assert_eq!(state.enemy.health, 47);
    assert_eq!(state.enemy.shield_count, 0);
    assert_eq!(state.rolled_dice.rolls[0], DieState::Rolling(ROLL_TIME_FRAMES_ALL, Face::Shoot));
    assert_eq!(state.rolled_dice.rolls[1], DieState::Rolling(120, Face::Shield));
    assert_eq!(state.rolled_dice.rolls[2], DieState::Rolling(120, Face::Blank));
}

#[test]
fn triangular_scoring() {
    assert_eq!(triangular_power(3), 6);
    assert_eq!(triangular_power(1), 1);
    assert_eq!(triangular_power(2), 3);
    assert_eq!(triangular_power(0), 0);
    assert_eq!(triangular_power(u32::MAX), u32::MAX);
    let dice = RolledDice { rolls: vec![locked(Face::Shoot), locked(Face::Shoot), locked(Face::Shoot)] };
    assert_eq!(dice.tally(Face::Shoot), 3);
    assert_eq!(triangular_power(dice.tally(Face::Shoot)), 6);
}

#[test]
fn compound_faces_count_as_several_shots() {
    let dice = RolledDice {
        rolls: vec![
            locked(Face::DoubleShot),
            locked(Face::TripleShot),
            DieState::Rolled(RolledDie { face: Face::Malfunction, cooldown: 3 }),
            DieState::Rolling(4, Face::Shoot),
        ],
    };
    assert_eq!(dice.tally(Face::Shoot), 5);
    assert_eq!(dice.tally(Face::TripleShot), 1);
    assert_eq!(dice.tally(Face::Malfunction), 0);
}

#[test]
fn shield_is_set_not_added() {
    let mut state = battle_with(vec![locked(Face::Shield), locked(Face::Shield)]);
    state.player.shield_count = 1;
    let events = state.accept_rolls(&vec![0, 0]);
    assert_eq!(state.player.shield_count, 2);
    assert_eq!(events[0], DisplayAnimation::PlayerNewShield);

    let mut state = battle_with(vec![locked(Face::Shield)]);
    state.player.shield_count = 3;
    let events = state.accept_rolls(&vec![0]);
    assert_eq!(state.player.shield_count, 3);
    assert!(!events.contains(&DisplayAnimation::PlayerNewShield));
}

#[test]
fn bypass_lowers_the_enemy_shield() {
    let mut state = battle_with(vec![
        locked(Face::Bypass),
        locked(Face::Bypass),
        locked(Face::Shoot),
        locked(Face::Shoot),
    ]);
    state.enemy.shield_count = 4;
    let events = state.accept_rolls(&vec![0, 0, 0, 0]);
    assert_eq!(events, vec![DisplayAnimation::PlayerBreakShield]);
    assert_eq!(state.enemy.shield_count, 0);
    assert_eq!(state.enemy.health, 50);
}

#[test]
fn weak_shot_is_absorbed() {
    let mut state = battle_with(vec![locked(Face::Shoot)]);
    state.enemy.shield_count = 2;
    let events = state.accept_rolls(&vec![0]);
    assert!(events.is_empty());
    assert_eq!(state.enemy.shield_count, 2);
    assert_eq!(state.enemy.health, 50);
}

#[test]
fn triple_shot_malfunctions_every_settled_die() {
    let mut state = battle_with(vec![
        locked(Face::TripleShot),
        locked(Face::Shoot),
        DieState::Rolled(RolledDie { face: Face::Malfunction, cooldown: 100 }),
        DieState::Rolling(5, Face::Shield),
    ]);
    state.accept_rolls(&vec![0, 0, 0, 0]);
    let broken = DieState::Rolled(RolledDie { face: Face::Malfunction, cooldown: 300 });
    assert_eq!(state.rolled_dice.rolls[0], broken);
    assert_eq!(state.rolled_dice.rolls[1], broken);
    assert_eq!(state.rolled_dice.rolls[2], broken);
    assert_eq!(state.rolled_dice.rolls[3], DieState::Rolling(5, Face::Shield));
    // four shots: power ten
    assert_eq!(state.enemy.health, 40);
}

#[test]
fn double_shot_malfunctions_itself() {
    let mut state = battle_with(vec![locked(Face::DoubleShot), locked(Face::Blank)]);
    state.accept_rolls(&vec![0, 1]);
    assert_eq!(
        state.rolled_dice.rolls[0],
        DieState::Rolled(RolledDie { face: Face::Malfunction, cooldown: 300 })
    );
    assert_eq!(state.rolled_dice.rolls[1], DieState::Rolling(120, Face::Shield));
    assert_eq!(state.enemy.health, 47);
}

#[test]
fn reroll_all_skips_cooling_malfunctions() {
    let cooling = DieState::Rolled(RolledDie { face: Face::Malfunction, cooldown: 100 });
    let expired = DieState::Rolled(RolledDie { face: Face::Malfunction, cooldown: 0 });
    let mut state = battle_with(vec![cooling, expired, locked(Face::Blank)]);
    state.accept_rolls(&vec![0, 0, 6]);
    assert_eq!(state.rolled_dice.rolls[0], cooling);
    assert_eq!(state.rolled_dice.rolls[1], DieState::Rolling(120, Face::Shoot));
    assert_eq!(state.rolled_dice.rolls[2], DieState::Rolling(120, Face::Shoot));
}

#[test]
fn disrupt_delays_both_slots() {
    let mut state = battle_with(vec![locked(Face::Disrupt), locked(Face::Disrupt)]);
    state.attacks = [
        Some(EnemyAttackState { attack: EnemyAttack::Shoot(2), cooldown: 10, max_cooldown: 130 }),
        Some(EnemyAttackState { attack: EnemyAttack::Heal(1), cooldown: 20, max_cooldown: 140 }),
    ];
    state.accept_rolls(&vec![0, 0]);
    assert_eq!(state.attacks[0].unwrap().cooldown, 190);
    assert_eq!(state.attacks[1].unwrap().cooldown, 200);
    assert_eq!(state.attacks[0].unwrap().max_cooldown, 130);
}

#[test]
fn disrupt_leaves_empty_slot_free_to_spawn() {
    let mut state = battle_with(vec![locked(Face::Disrupt)]);
    state.attacks = [
        Some(EnemyAttackState { attack: EnemyAttack::Shoot(2), cooldown: 10, max_cooldown: 130 }),
        None,
    ];
    state.accept_rolls(&vec![0]);
    assert_eq!(state.attacks[0].unwrap().cooldown, 70);
    assert!(state.attacks[1].is_none());
    let spawn = AttackDraws { spawn: 0, kind: 0, magnitude: 0, cooldown: 0 };
    state.update(&vec![0], no_spawn(), spawn);
    assert_eq!(state.attacks[0].unwrap().cooldown, 69);
    assert_eq!(
        state.attacks[1],
        Some(EnemyAttackState { attack: EnemyAttack::Shoot(1), cooldown: 128, max_cooldown: 128 })
    );
}

#[test]
fn cooldown_delay_saturates() {
    let mut state = battle_with(vec![locked(Face::Disrupt)]);
    state.attacks[0] =
        Some(EnemyAttackState { attack: EnemyAttack::Shoot(2), cooldown: u32::MAX - 5, max_cooldown: 130 });
    state.accept_rolls(&vec![0]);
    assert_eq!(state.attacks[0].unwrap().cooldown, u32::MAX);
}

#[test]
fn health_saturates_at_zero() {
    let mut player = PlayerState { shield_count: 0, health: 5, max_health: 120 };
    let mut enemy = EnemyState { shield_count: 0, health: 50, max_health: 50 };
    let ev = EnemyAttack::Shoot(50).apply_effect(&mut player, &mut enemy);
    assert_eq!(player.health, 0);
    assert_eq!(ev, Some(DisplayAnimation::EnemyShootPlayer));
    let ev = EnemyAttack::Shoot(u32::MAX).apply_effect(&mut player, &mut enemy);
    assert_eq!(player.health, 0);
    assert_eq!(ev, Some(DisplayAnimation::EnemyShootPlayer));

    let mut state = battle_with(vec![locked(Face::Shoot); 12]);
    state.enemy.health = 5;
    state.accept_rolls(&vec![0; 12]);
    assert_eq!(state.enemy.health, 0);
}

#[test]
fn enemy_shot_breaks_or_is_absorbed() {
    let mut player = PlayerState { shield_count: 2, health: 100, max_health: 120 };
    let mut enemy = EnemyState { shield_count: 0, health: 50, max_health: 50 };
    assert_eq!(EnemyAttack::Shoot(2).apply_effect(&mut player, &mut enemy), None);
    assert_eq!(player, PlayerState { shield_count: 2, health: 100, max_health: 120 });
    assert_eq!(
        EnemyAttack::Shoot(3).apply_effect(&mut player, &mut enemy),
        Some(DisplayAnimation::EnemyBreakShield)
    );
    assert_eq!(player, PlayerState { shield_count: 0, health: 100, max_health: 120 });
}

#[test]
fn enemy_shield_and_heal() {
    let mut player = PlayerState { shield_count: 0, health: 100, max_health: 120 };
    let mut enemy = EnemyState { shield_count: 1, health: 45, max_health: 50 };
    assert_eq!(
        EnemyAttack::Shield(3).apply_effect(&mut player, &mut enemy),
        Some(DisplayAnimation::EnemyNewShield)
    );
    assert_eq!(enemy.shield_count, 3);
    assert_eq!(EnemyAttack::Shield(2).apply_effect(&mut player, &mut enemy), None);
    assert_eq!(enemy.shield_count, 3);
    assert_eq!(
        EnemyAttack::Heal(10).apply_effect(&mut player, &mut enemy),
        Some(DisplayAnimation::EnemyHeal)
    );
    assert_eq!(enemy.health, 50);
    enemy.health = 20;
    assert_eq!(
        EnemyAttack::Heal(u32::MAX).apply_effect(&mut player, &mut enemy),
        Some(DisplayAnimation::EnemyHeal)
    );
    assert_eq!(enemy.health, 50);
    enemy.health = 20;
    EnemyAttack::Heal(0).apply_effect(&mut player, &mut enemy);
    assert_eq!(enemy.health, 20);
}

#[test]
fn attack_counts_down_then_lands() {
    let mut player = PlayerState { shield_count: 0, health: 100, max_health: 120 };
    let mut enemy = EnemyState { shield_count: 0, health: 50, max_health: 50 };
    let mut attack = EnemyAttackState { attack: EnemyAttack::Shoot(7), cooldown: 1, max_cooldown: 130 };
    assert_eq!(attack.update(&mut player, &mut enemy), (false, None));
    assert_eq!(attack.cooldown, 0);
    assert_eq!(player.health, 100);
    assert_eq!(
        attack.update(&mut player, &mut enemy),
        (true, Some(DisplayAnimation::EnemyShootPlayer))
    );
    assert_eq!(player.health, 93);
}

#[test]
fn attack_display_values() {
    let shoot = EnemyAttackState { attack: EnemyAttack::Shoot(7), cooldown: 65, max_cooldown: 130 };
    let shield = EnemyAttackState { attack: EnemyAttack::Shield(2), cooldown: 260, max_cooldown: 130 };
    let heal = EnemyAttackState { attack: EnemyAttack::Heal(4), cooldown: 0, max_cooldown: 0 };
    assert_eq!(shoot.attack_type(), EnemyAttackType::Attack);
    assert_eq!(shield.attack_type(), EnemyAttackType::Shield);
    assert_eq!(heal.attack_type(), EnemyAttackType::Heal);
    assert_eq!(shoot.value_to_show(), Some(7));
    assert_eq!(shield.value_to_show(), None);
    assert_eq!(heal.value_to_show(), Some(4));
    assert_eq!(shoot.cooldown_bar(48), 24);
    assert_eq!(shield.cooldown_bar(48), 48);
    assert_eq!(heal.cooldown_bar(48), 0);
}

#[test]
fn frame_resolves_slots_in_order() {
    let mut state = battle_with(vec![locked(Face::Blank)]);
    state.player.shield_count = 1;
    state.attacks = [
        Some(EnemyAttackState { attack: EnemyAttack::Shoot(2), cooldown: 0, max_cooldown: 130 }),
        Some(EnemyAttackState { attack: EnemyAttack::Shoot(2), cooldown: 0, max_cooldown: 130 }),
    ];
    let events = state.update(&vec![0], no_spawn(), no_spawn());
    assert_eq!(events, vec![DisplayAnimation::EnemyBreakShield, DisplayAnimation::EnemyShootPlayer]);
    assert_eq!(state.player.shield_count, 0);
    assert_eq!(state.player.health, 118);
    assert!(state.attacks[0].is_none());
    assert!(state.attacks[1].is_none());
}

#[test]
fn new_battle_starts_rolling() {
    let dice = PlayerDice { dice: vec![plain_die(), plain_die()] };
    let state = CurrentBattleState::new(dice, 3, &vec![1, -1]);
    assert_eq!(state.player, PlayerState { shield_count: 0, health: 120, max_health: 120 });
    assert_eq!(state.enemy, EnemyState { shield_count: 0, health: 50, max_health: 50 });
    assert_eq!(state.rolled_dice.rolls, vec![DieState::Rolling(120, Face::Shield), DieState::Rolling(120, Face::Blank)]);
    assert!(state.attacks[0].is_none() && state.attacks[1].is_none());
    assert_eq!(state.current_level, 3);
}

#[test]
fn manual_reroll_rules() {
    let cooling = DieState::Rolled(RolledDie { face: Face::Malfunction, cooldown: 9 });
    let expired = DieState::Rolled(RolledDie { face: Face::Malfunction, cooldown: 0 });
    let mut state = battle_with(vec![cooling, expired, locked(Face::Shoot), DieState::Rolling(3, Face::Blank)]);
    for i in 0..4 {
        state.roll_die(i, 7, 1);
    }
    assert_eq!(state.rolled_dice.rolls[0], cooling);
    assert_eq!(state.rolled_dice.rolls[1], DieState::Rolling(7, Face::Shield));
    assert_eq!(state.rolled_dice.rolls[2], DieState::Rolling(7, Face::Shield));
    assert_eq!(state.rolled_dice.rolls[3], DieState::Rolling(3, Face::Blank));
}

#[test]
fn malfunction_lock_holds_every_frame() {
    let all_broken = Die { faces: [Face::Malfunction; 6] };
    let mut state = battle_with(vec![DieState::Rolling(2, Face::Shoot), locked(Face::Shoot)]);
    state.player_dice.dice[0] = all_broken;
    for _ in 0..400 {
        state.update(&vec![0, 0], no_spawn(), no_spawn());
        for d in state.rolled_dice.rolls.iter() {
            if let DieState::Rolled(r) = d {
                assert!(r.cooldown == 0 || r.face == Face::Malfunction);
            }
        }
    }
    assert_eq!(state.rolled_dice.rolls[0], DieState::Rolled(RolledDie { face: Face::Malfunction, cooldown: 0 }));
}

#[test]
fn die_selection_wraps() {
    assert_eq!(previous_die(0, 3), 2);
    assert_eq!(previous_die(2, 3), 1);
    assert_eq!(next_die(2, 3), 0);
    assert_eq!(next_die(0, 3), 1);
}
