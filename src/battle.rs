use vstd::prelude::*;

use crate::animation::DisplayAnimation;
use crate::dice::{
    cap_u32, cascaded, rerolled, sat_sub, swept, tally, tick, DieState, RolledDice, RolledDie,
    MALFUNCTION_COOLDOWN_FRAMES, ROLL_TIME_FRAMES_ALL,
};
use crate::display::{bar_fraction, bar_value};
use crate::face::{Face, PlayerDice};
use crate::generation::{generate_attack, generated, AttackDraws};

verus! {

/// The kind of an attack, as the screen shows it.
#[derive(Clone, Copy, PartialEq, Eq, Debug, Hash, Structural)]
pub enum EnemyAttackType {
    Attack,
    Shield,
    Heal,
}

/// The player's ship.
#[derive(Clone, Copy, PartialEq, Eq, Debug, Structural)]
pub struct PlayerState {
    pub shield_count: u32,
    pub health: u32,
    pub max_health: u32,
}

/// The opponent's ship.
#[derive(Clone, Copy, PartialEq, Eq, Debug, Structural)]
pub struct EnemyState {
    pub shield_count: u32,
    pub health: u32,
    pub max_health: u32,
}

impl PlayerState {
    pub open spec fn wf(self) -> bool {
        self.health <= self.max_health
    }
}

impl EnemyState {
    pub open spec fn wf(self) -> bool {
        self.health <= self.max_health
    }
}

/// An attack of the opponent, with its magnitude.
#[derive(Clone, Copy, PartialEq, Eq, Debug, Structural)]
pub enum EnemyAttack {
    Shoot(u32),
    Shield(u32),
    Heal(u32),
}

/// What an attack does when it lands, and the event it raises.
///
/// A shot stronger than the player's shield breaks the whole shield if there
/// is one, else takes its damage off the player's health; a weaker shot is
/// absorbed. A shield raises the opponent's shield to its amount. A heal
/// restores health up to the maximum.
pub open spec fn attack_effect(attack: EnemyAttack, player: PlayerState, enemy: EnemyState) -> (
    PlayerState,
    EnemyState,
    Option<DisplayAnimation>,
) {
    match attack {
        EnemyAttack::Shoot(damage) => if damage > player.shield_count {
            if player.shield_count > 0 {
                (
                    PlayerState { shield_count: 0, ..player },
                    enemy,
                    Some(DisplayAnimation::EnemyBreakShield),
                )
            } else {
                (
                    PlayerState { health: sat_sub(player.health as int, damage as int) as u32, ..player },
                    enemy,
                    Some(DisplayAnimation::EnemyShootPlayer),
                )
            }
        } else {
            (player, enemy, None)
        },
        EnemyAttack::Shield(amount) => if amount > enemy.shield_count {
            (player, EnemyState { shield_count: amount, ..enemy }, Some(DisplayAnimation::EnemyNewShield))
        } else {
            (player, enemy, None)
        },
        EnemyAttack::Heal(amount) => {
            let healed = enemy.health as int + amount as int;
            (
                player,
                EnemyState {
                    health: if healed < enemy.max_health {
                        healed as u32
                    } else {
                        enemy.max_health
                    },
                    ..enemy
                },
                Some(DisplayAnimation::EnemyHeal),
            )
        },
    }
}

proof fn lemma_attack_effect_wf(attack: EnemyAttack, player: PlayerState, enemy: EnemyState)
    requires
        player.wf(),
        enemy.wf(),
    ensures
        attack_effect(attack, player, enemy).0.wf(),
        attack_effect(attack, player, enemy).1.wf(),
{
}

impl EnemyAttack {
    pub fn apply_effect(&self, player_state: &mut PlayerState, enemy_state: &mut EnemyState) -> (r:
        Option<DisplayAnimation>)
        ensures
            (*final(player_state), *final(enemy_state), r) == attack_effect(
                *self,
                *old(player_state),
                *old(enemy_state),
            ),
    {
        match *self {
            EnemyAttack::Shoot(damage) => {
                if damage > player_state.shield_count {
                    if player_state.shield_count > 0 {
                        player_state.shield_count = 0;
                        Some(DisplayAnimation::EnemyBreakShield)
                    } else {
                        player_state.health = player_state.health.saturating_sub(damage);
                        Some(DisplayAnimation::EnemyShootPlayer)
                    }
                } else {
                    None
                }
            },
            EnemyAttack::Shield(amount) => {
                if amount > enemy_state.shield_count {
                    enemy_state.shield_count = amount;
                    Some(DisplayAnimation::EnemyNewShield)
                } else {
                    None
                }
            },
            EnemyAttack::Heal(amount) => {
                let healed = enemy_state.health as u64 + amount as u64;
                enemy_state.health = if healed < enemy_state.max_health as u64 {
                    healed as u32
                } else {
                    enemy_state.max_health
                };
                Some(DisplayAnimation::EnemyHeal)
            },
        }
    }
}


/// An attack waiting in one of the opponent's slots.
#[derive(Clone, Copy, PartialEq, Eq, Debug, Structural)]
pub struct EnemyAttackState {
    pub attack: EnemyAttack,
    /// Frames until it lands.
    pub cooldown: u32,
    /// The cooldown it was scheduled with.
    pub max_cooldown: u32,
}

impl EnemyAttackState {
    pub fn attack_type(&self) -> (r: EnemyAttackType)
        ensures
            r == match self.attack {
                EnemyAttack::Shoot(_) => EnemyAttackType::Attack,
                EnemyAttack::Shield(_) => EnemyAttackType::Shield,
                EnemyAttack::Heal(_) => EnemyAttackType::Heal,
            },
    {
        match self.attack {
            EnemyAttack::Shoot(_) => EnemyAttackType::Attack,
            EnemyAttack::Shield(_) => EnemyAttackType::Shield,
            EnemyAttack::Heal(_) => EnemyAttackType::Heal,
        }
    }

    /// The magnitude shown beside the attack: none for a shield.
    pub fn value_to_show(&self) -> (r: Option<u32>)
        ensures
            r == match self.attack {
                EnemyAttack::Shoot(i) => Some(i),
                EnemyAttack::Heal(i) => Some(i),
                EnemyAttack::Shield(_) => None::<u32>,
            },
    {
        match self.attack {
            EnemyAttack::Shoot(i) => Some(i),
            EnemyAttack::Heal(i) => Some(i),
            EnemyAttack::Shield(_) => None,
        }
    }

    /// The length of the cooldown bar, out of `width`.
    pub fn cooldown_bar(&self, width: u32) -> (r: u32)
        ensures
            r == bar_fraction(self.cooldown as int, self.max_cooldown as int, width as int),
    {
        bar_value(self.cooldown, self.max_cooldown, width)
    }

    /// One frame passes: an attack whose cooldown is zero lands and reports
    /// `true` with its event; any other counts down.
    pub fn update(&mut self, player_state: &mut PlayerState, enemy_state: &mut EnemyState) -> (r: (
        bool,
        Option<DisplayAnimation>,
    ))
        ensures
            r.0 == (old(self).cooldown == 0),
            r.0 ==> *final(self) == *old(self) && (*final(player_state), *final(enemy_state), r.1)
                == attack_effect(old(self).attack, *old(player_state), *old(enemy_state)),
            !r.0 ==> *final(self) == (EnemyAttackState {
                cooldown: (old(self).cooldown - 1) as u32,
                ..*old(self)
            }) && *final(player_state) == *old(player_state) && *final(enemy_state)
                == *old(enemy_state) && r.1 == None::<DisplayAnimation>,
    {
        if self.cooldown == 0 {
            let ev = self.attack.apply_effect(player_state, enemy_state);
            return (true, ev);
        }
        self.cooldown -= 1;
        (false, None)
    }
}


/// The die before `selected`, wrapping round to the last.
pub fn previous_die(selected: usize, num_dice: usize) -> (r: usize)
    requires
        selected < num_dice,
    ensures
        r == if selected == 0 {
            num_dice - 1
        } else {
            selected - 1
        },
{
    if selected == 0 {
        num_dice - 1
    } else {
        selected - 1
    }
}

/// The die after `selected`, wrapping round to the first.
pub fn next_die(selected: usize, num_dice: usize) -> (r: usize)
    requires
        selected < num_dice,
    ensures
        r == if selected == num_dice - 1 {
            0
        } else {
            selected + 1
        },
{
    if selected == num_dice - 1 {
        0
    } else {
        selected + 1
    }
}

/// Starting health of the player's ship.
pub const PLAYER_MAX_HEALTH: u32 = 120;

/// Starting health of the opponent's ship.
pub const ENEMY_MAX_HEALTH: u32 = 50;

/// Frames of delay per point of disruption.
pub const DISRUPT_FRAMES: u32 = 60;

/// The power of `n` stacked faces: `n * (n + 1) / 2`.
pub open spec fn triangular(n: int) -> int {
    n * (n + 1) / 2
}

proof fn lemma_triangular_bounds(n: int)
    requires
        n >= 0,
    ensures
        triangular(n) >= n,
        n <= u32::MAX ==> n * (n + 1) <= u64::MAX,
{
    assert(n * (n + 1) >= 2 * n) by (nonlinear_arith)
        requires
            n >= 0,
    ;
    if n <= u32::MAX {
        assert(n * (n + 1) <= u32::MAX * (u32::MAX + 1)) by (nonlinear_arith)
            requires
                0 <= n <= u32::MAX,
        ;
    }
}

/// Capping a count before taking its power changes nothing once the power is capped.
proof fn lemma_capped_power(n: int)
    requires
        n >= 0,
    ensures
        cap_u32(triangular(cap_u32(n))) == cap_u32(triangular(n)),
{
    lemma_triangular_bounds(n);
    lemma_triangular_bounds(u32::MAX as int);
}

/// The triangular power of `count`, capped at the largest `u32`.
pub fn triangular_power(count: u32) -> (r: u32)
    ensures
        r == cap_u32(triangular(count as int)),
{
    proof {
        lemma_triangular_bounds(count as int);
    }
    let n = count as u64;
    let power = n * (n + 1) / 2;
    if power > u32::MAX as u64 {
        u32::MAX
    } else {
        power as u32
    }
}

/// An attack slot delayed by `frames`; an empty slot stays empty.
pub open spec fn delayed(slot: Option<EnemyAttackState>, frames: int) -> Option<EnemyAttackState> {
    match slot {
        Some(a) => Some(EnemyAttackState { cooldown: cap_u32(a.cooldown + frames) as u32, ..a }),
        None => None,
    }
}

pub fn delay_attack(slot: Option<EnemyAttackState>, frames: u64) -> (r: Option<EnemyAttackState>)
    ensures
        r == delayed(slot, frames as int),
{
    match slot {
        Some(a) => {
            let cooldown = if frames >= (u32::MAX - a.cooldown) as u64 {
                u32::MAX
            } else {
                a.cooldown + frames as u32
            };
            Some(EnemyAttackState { cooldown, ..a })
        },
        None => None,
    }
}

/// One frame of an attack slot: a due attack lands and leaves the slot, a
/// pending one counts down, and an empty slot may be filled by the opponent.
pub open spec fn slot_step(
    slot: Option<EnemyAttackState>,
    player: PlayerState,
    enemy: EnemyState,
    current_level: u32,
    draws: AttackDraws,
) -> (Option<EnemyAttackState>, PlayerState, EnemyState, Option<DisplayAnimation>) {
    match slot {
        Some(a) => if a.cooldown == 0 {
            let effect = attack_effect(a.attack, player, enemy);
            (None, effect.0, effect.1, effect.2)
        } else {
            (Some(EnemyAttackState { cooldown: (a.cooldown - 1) as u32, ..a }), player, enemy, None)
        },
        None => (
            match generated(current_level, draws) {
                Some(g) => Some(
                    EnemyAttackState { attack: g.attack, cooldown: g.cooldown, max_cooldown: g.cooldown },
                ),
                None => None,
            },
            player,
            enemy,
            None,
        ),
    }
}

pub fn update_slot(
    slot: &mut Option<EnemyAttackState>,
    player: &mut PlayerState,
    enemy: &mut EnemyState,
    current_level: u32,
    draws: AttackDraws,
) -> (r: Option<DisplayAnimation>)
    ensures
        (*final(slot), *final(player), *final(enemy), r) == slot_step(
            *old(slot),
            *old(player),
            *old(enemy),
            current_level,
            draws,
        ),
{
    match *slot {
        Some(attack_state) => {
            let mut attack_state = attack_state;
            let (landed, ev) = attack_state.update(player, enemy);
            if landed {
                *slot = None;
            } else {
                *slot = Some(attack_state);
            }
            ev
        },
        None => {
            if let Some(g) = generate_attack(current_level, draws) {
                *slot = Some(
                    EnemyAttackState { attack: g.attack, cooldown: g.cooldown, max_cooldown: g.cooldown },
                );
            }
            None
        },
    }
}

/// The opponent after an accepted shot of `power` against a shield of
/// `effective` points: a shot at least as strong breaks the shield, and
/// hurts only where no shield was left to break.
pub open spec fn shot_at(enemy: EnemyState, power: int, effective: int) -> EnemyState {
    if power >= effective {
        if effective > 0 {
            EnemyState { shield_count: 0, ..enemy }
        } else {
            EnemyState { shield_count: 0, health: sat_sub(enemy.health as int, power) as u32, ..enemy }
        }
    } else {
        enemy
    }
}

pub open spec fn event_if(cond: bool, ev: DisplayAnimation) -> Seq<DisplayAnimation> {
    if cond {
        seq![ev]
    } else {
        seq![]
    }
}

pub open spec fn event_of(ev: Option<DisplayAnimation>) -> Seq<DisplayAnimation> {
    match ev {
        Some(e) => seq![e],
        None => seq![],
    }
}

/// The events of an accepted roll, in order: a new shield, then the shot.
pub open spec fn accept_events(new_shield: bool, power: int, effective: int) -> Seq<
    DisplayAnimation,
> {
    event_if(new_shield, DisplayAnimation::PlayerNewShield) + event_if(
        power >= effective && effective > 0,
        DisplayAnimation::PlayerBreakShield,
    ) + event_if(power >= effective && effective == 0, DisplayAnimation::PlayerShootEnemy)
}

/// Everything one battle holds.
#[derive(Clone, Debug)]
pub struct CurrentBattleState {
    pub player: PlayerState,
    pub enemy: EnemyState,
    pub rolled_dice: RolledDice,
    pub player_dice: PlayerDice,
    pub attacks: [Option<EnemyAttackState>; 2],
    pub current_level: u32,
}

impl CurrentBattleState {
    /// One state per die, every die well formed, health within its maximum.
    pub open spec fn wf(self) -> bool {
        &&& self.rolled_dice.rolls.len() == self.player_dice.dice.len()
        &&& self.rolled_dice.wf()
        &&& self.player.wf()
        &&& self.enemy.wf()
    }

    pub open spec fn rolls(self) -> Seq<DieState> {
        self.rolled_dice.rolls@
    }

    /// A new battle: both ships at full health without shields, no attack
    /// scheduled, and every die rolling for the full time; die `i` draws with `draws[i]`.
    pub fn new(player_dice: PlayerDice, current_level: u32, draws: &Vec<i32>) -> (r: Self)
        requires
            draws.len() == player_dice.dice.len(),
        ensures
            r.wf(),
            r.player == (PlayerState {
                shield_count: 0,
                health: PLAYER_MAX_HEALTH,
                max_health: PLAYER_MAX_HEALTH,
            }),
            r.enemy == (EnemyState {
                shield_count: 0,
                health: ENEMY_MAX_HEALTH,
                max_health: ENEMY_MAX_HEALTH,
            }),
            r.attacks[0] is None,
            r.attacks[1] is None,
            r.player_dice == player_dice,
            r.current_level == current_level,
            r.rolls().len() == player_dice.dice.len(),
            forall|i: int|
                0 <= i < r.rolls().len() ==> #[trigger] r.rolls()[i] == DieState::Rolling(
                    ROLL_TIME_FRAMES_ALL,
                    player_dice.dice@[i].face_for(draws@[i]),
                ),
    {
        let mut rolls: Vec<DieState> = Vec::new();
        let mut i: usize = 0;
        while i < player_dice.dice.len()
            invariant
                draws.len() == player_dice.dice.len(),
                i <= player_dice.dice.len(),
                rolls.len() == i,
                forall|j: int|
                    0 <= j < i ==> #[trigger] rolls@[j] == DieState::Rolling(
                        ROLL_TIME_FRAMES_ALL,
                        player_dice.dice@[j].face_for(draws@[j]),
                    ),
            decreases player_dice.dice.len() - i,
        {
            let face = player_dice.dice[i].roll(draws[i]);
            rolls.push(DieState::Rolling(ROLL_TIME_FRAMES_ALL, face));
            i += 1;
        }
        CurrentBattleState {
            player: PlayerState {
                shield_count: 0,
                health: PLAYER_MAX_HEALTH,
                max_health: PLAYER_MAX_HEALTH,
            },
            enemy: EnemyState {
                shield_count: 0,
                health: ENEMY_MAX_HEALTH,
                max_health: ENEMY_MAX_HEALTH,
            },
            rolled_dice: RolledDice { rolls },
            player_dice,
            attacks: [None, None],
            current_level,
        }
    }

    /// The player rerolls die `die_index` by hand, rolling for `time` frames.
    pub fn roll_die(&mut self, die_index: usize, time: u32, draw: i32)
        requires
            old(self).wf(),
            die_index < old(self).rolls().len(),
        ensures
            final(self).wf(),
            final(self).rolls() == old(self).rolls().update(
                die_index as int,
                rerolled(old(self).rolls()[die_index as int], old(self).player_dice.dice@[die_index as int], time, draw),
            ),
            final(self).player == old(self).player,
            final(self).enemy == old(self).enemy,
            final(self).attacks == old(self).attacks,
            final(self).player_dice == old(self).player_dice,
            final(self).current_level == old(self).current_level,
    {
        self.rolled_dice.roll_die(&self.player_dice, die_index, time, draw);
    }

    /// The player accepts the roll. The accepted faces are counted; the
    /// shield rises to the shield count if that is higher; the shot, of
    /// triangular power, meets the opponent's shield less the bypass count;
    /// the disruption delays every scheduled attack; double shots, or every
    /// settled die after a triple shot, malfunction; and every other settled
    /// die, but a malfunction still cooling down, rerolls for the full time,
    /// die `i` drawing with `draws[i]`.
    /// Returns the events raised, in order.
    pub fn accept_rolls(&mut self, draws: &Vec<i32>) -> (events: Vec<DisplayAnimation>)
        requires
            old(self).wf(),
            draws.len() == old(self).rolls().len(),
        ensures
            final(self).wf(),
            ({
                let rolls = old(self).rolls();
                let shield = cap_u32(tally(rolls, Face::Shield) as int);
                let power = triangular(tally(rolls, Face::Shoot) as int);
                let effective = sat_sub(
                    old(self).enemy.shield_count as int,
                    tally(rolls, Face::Bypass) as int,
                );
                let delay = triangular(tally(rolls, Face::Disrupt) as int) * DISRUPT_FRAMES;
                let triple = tally(rolls, Face::TripleShot) > 0;
                &&& final(self).player == if shield > old(self).player.shield_count {
                    PlayerState { shield_count: shield as u32, ..old(self).player }
                } else {
                    old(self).player
                }
                &&& final(self).enemy == shot_at(old(self).enemy, power, effective)
                &&& final(self).attacks[0] == delayed(old(self).attacks[0], delay)
                &&& final(self).attacks[1] == delayed(old(self).attacks[1], delay)
                &&& final(self).rolls().len() == rolls.len()
                &&& forall|i: int|
                    0 <= i < rolls.len() ==> #[trigger] final(self).rolls()[i] == swept(
                        cascaded(rolls[i], triple),
                        old(self).player_dice.dice@[i],
                        draws@[i],
                    )
                &&& events@ == accept_events(shield > old(self).player.shield_count, power, effective)
            }),
            // a triple shot turns every settled die into a fresh malfunction
            tally(old(self).rolls(), Face::TripleShot) > 0 ==> forall|i: int|
                0 <= i < old(self).rolls().len() && old(self).rolls()[i] is Rolled
                    ==> #[trigger] final(self).rolls()[i] == DieState::Rolled(
                    RolledDie { face: Face::Malfunction, cooldown: MALFUNCTION_COOLDOWN_FRAMES },
                ),
            // without one, a malfunction still cooling down stays as it is,
            // and any other settled face but a double shot rolls again for
            // the full time
            tally(old(self).rolls(), Face::TripleShot) == 0 ==> forall|i: int|
                0 <= i < old(self).rolls().len() ==> {
                    let d = old(self).rolls()[i];
                    &&& (d matches DieState::Rolled(r) && r.face == Face::Malfunction && r.cooldown
                        > 0) ==> #[trigger] final(self).rolls()[i] == d
                    &&& (d matches DieState::Rolled(r) && ((r.face != Face::Malfunction && r.face
                        != Face::DoubleShot) || (r.face == Face::Malfunction && r.cooldown == 0)))
                        ==> final(self).rolls()[i] == DieState::Rolling(
                        ROLL_TIME_FRAMES_ALL,
                        old(self).player_dice.dice@[i].face_for(draws@[i]),
                    )
                },
            // dice still rolling are left alone
            forall|i: int|
                0 <= i < old(self).rolls().len() && old(self).rolls()[i] is Rolling
                    ==> #[trigger] final(self).rolls()[i] == old(self).rolls()[i],
            final(self).player_dice == old(self).player_dice,
            final(self).current_level == old(self).current_level,
    {
        let shield = self.rolled_dice.tally(Face::Shield);
        let shoot = self.rolled_dice.tally(Face::Shoot);
        let bypass = self.rolled_dice.tally(Face::Bypass);
        let disrupt = self.rolled_dice.tally(Face::Disrupt);
        let triple = self.rolled_dice.tally(Face::TripleShot) > 0;
        let ghost rolls = self.rolls();
        proof {
            lemma_capped_power(tally(rolls, Face::Shoot) as int);
            lemma_capped_power(tally(rolls, Face::Disrupt) as int);
        }

        let mut events: Vec<DisplayAnimation> = Vec::new();

        if shield > self.player.shield_count {
            self.player.shield_count = shield;
            events.push(DisplayAnimation::PlayerNewShield);
        }

        let shoot_power = triangular_power(shoot);
        let effective = self.enemy.shield_count.saturating_sub(bypass);
        proof {
            assert(events@ =~= event_if(shield > old(self).player.shield_count, DisplayAnimation::PlayerNewShield));
        }
        if shoot_power >= effective {
            self.enemy.shield_count = 0;
            if effective > 0 {
                events.push(DisplayAnimation::PlayerBreakShield);
            } else {
                self.enemy.health = self.enemy.health.saturating_sub(shoot_power);
                events.push(DisplayAnimation::PlayerShootEnemy);
            }
        }

        let delay = triangular_power(disrupt) as u64 * DISRUPT_FRAMES as u64;
        self.attacks[0] = delay_attack(self.attacks[0], delay);
        self.attacks[1] = delay_attack(self.attacks[1], delay);

        self.rolled_dice.settle_accepted(triple, &self.player_dice, draws);
        proof {
            assert(events@ =~= accept_events(
                cap_u32(tally(rolls, Face::Shield) as int) > old(self).player.shield_count,
                triangular(tally(rolls, Face::Shoot) as int),
                sat_sub(old(self).enemy.shield_count as int, tally(rolls, Face::Bypass) as int),
            ));
        }
        events
    }

    /// One frame: every die advances, die `i` drawing with `die_draws[i]`;
    /// then the first attack slot and then the second take their step, an
    /// empty slot scheduling with `first` or `second` respectively.
    /// Returns the events of landed attacks, in slot order.
    pub fn update(&mut self, die_draws: &Vec<i32>, first: AttackDraws, second: AttackDraws) -> (events:
        Vec<DisplayAnimation>)
        requires
            old(self).wf(),
            die_draws.len() == old(self).rolls().len(),
        ensures
            final(self).wf(),
            final(self).rolls().len() == old(self).rolls().len(),
            forall|i: int|
                0 <= i < old(self).rolls().len() ==> #[trigger] final(self).rolls()[i] == tick(
                    old(self).rolls()[i],
                    old(self).player_dice.dice@[i],
                    die_draws@[i],
                ),
            ({
                let s0 = slot_step(
                    old(self).attacks[0],
                    old(self).player,
                    old(self).enemy,
                    old(self).current_level,
                    first,
                );
                let s1 = slot_step(old(self).attacks[1], s0.1, s0.2, old(self).current_level, second);
                &&& final(self).attacks[0] == s0.0
                &&& final(self).attacks[1] == s1.0
                &&& final(self).player == s1.1
                &&& final(self).enemy == s1.2
                &&& events@ == event_of(s0.3) + event_of(s1.3)
            }),
            final(self).player_dice == old(self).player_dice,
            final(self).current_level == old(self).current_level,
    {
        self.rolled_dice.update(&self.player_dice, die_draws);

        let mut events: Vec<DisplayAnimation> = Vec::new();
        let mut slot = self.attacks[0];
        let ev = update_slot(&mut slot, &mut self.player, &mut self.enemy, self.current_level, first);
        self.attacks[0] = slot;
        proof {
            lemma_slot_step_wf(old(self).attacks[0], old(self).player, old(self).enemy, self.current_level, first);
        }
        if let Some(e) = ev {
            events.push(e);
        }
        let ghost player_between = self.player;
        let ghost enemy_between = self.enemy;
        let mut slot = self.attacks[1];
        let ev = update_slot(&mut slot, &mut self.player, &mut self.enemy, self.current_level, second);
        self.attacks[1] = slot;
        proof {
            lemma_slot_step_wf(old(self).attacks[1], player_between, enemy_between, self.current_level, second);
        }
        if let Some(e) = ev {
            events.push(e);
        }
        proof {
            let s0 = slot_step(old(self).attacks[0], old(self).player, old(self).enemy, self.current_level, first);
            let s1 = slot_step(old(self).attacks[1], s0.1, s0.2, self.current_level, second);
            assert(events@ =~= event_of(s0.3) + event_of(s1.3));
        }
        events
    }
}

proof fn lemma_slot_step_wf(
    slot: Option<EnemyAttackState>,
    player: PlayerState,
    enemy: EnemyState,
    current_level: u32,
    draws: AttackDraws,
)
    requires
        player.wf(),
        enemy.wf(),
    ensures
        slot_step(slot, player, enemy, current_level, draws).1.wf(),
        slot_step(slot, player, enemy, current_level, draws).2.wf(),
{
    if let Some(a) = slot {
        lemma_attack_effect_wf(a.attack, player, enemy);
    }
}

} // verus!
