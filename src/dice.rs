use vstd::prelude::*;

use crate::face::{Die, Face, PlayerDice};

verus! {

/// Frames a malfunctioning die stays locked (five seconds at 60Hz).
pub const MALFUNCTION_COOLDOWN_FRAMES: u32 = 5 * 60;

/// Rolling time of every die after a roll is accepted.
pub const ROLL_TIME_FRAMES_ALL: u32 = 2 * 60;

/// Rolling time of a single die rerolled by hand.
pub const ROLL_TIME_FRAMES_ONE: u32 = 60 / 8;

/// `a - b`, floored at zero.
pub open spec fn sat_sub(a: int, b: int) -> int {
    if a > b {
        a - b
    } else {
        0
    }
}

/// `x`, capped at the largest `u32`.
pub open spec fn cap_u32(x: int) -> int {
    if x > u32::MAX {
        u32::MAX as int
    } else {
        x
    }
}

/// A settled face and, for a malfunction, the frames until it may be rerolled.
#[derive(Clone, Copy, PartialEq, Eq, Debug, Structural)]
pub struct RolledDie {
    pub face: Face,
    pub cooldown: u32,
}

impl RolledDie {
    /// Only a malfunction carries a cooldown, and never more than a full one.
    pub open spec fn wf(self) -> bool {
        &&& self.cooldown > 0 ==> self.face == Face::Malfunction
        &&& self.cooldown <= MALFUNCTION_COOLDOWN_FRAMES
    }

    /// The die as it settles on `face`.
    pub open spec fn locked(face: Face) -> RolledDie {
        RolledDie {
            face,
            cooldown: if face == Face::Malfunction {
                MALFUNCTION_COOLDOWN_FRAMES
            } else {
                0
            },
        }
    }

    /// May the player reroll this die by hand?
    pub open spec fn rerollable(self) -> bool {
        self.face != Face::Malfunction || self.cooldown == 0
    }

    /// The cooldown to show: only that of a malfunction still counting down.
    pub open spec fn shown_cooldown(self) -> Option<u32> {
        if self.face == Face::Malfunction && self.cooldown > 0 {
            Some(self.cooldown)
        } else {
            None
        }
    }

    pub fn new(face: Face) -> (r: Self)
        ensures
            r == Self::locked(face),
            r.wf(),
    {
        let cooldown = if face == Face::Malfunction {
            MALFUNCTION_COOLDOWN_FRAMES
        } else {
            0
        };
        RolledDie { face, cooldown }
    }

    /// One frame passes: the cooldown counts down to zero.
    pub fn update(&mut self)
        ensures
            final(self).face == old(self).face,
            final(self).cooldown == sat_sub(old(self).cooldown as int, 1),
            old(self).wf() ==> final(self).wf(),
    {
        self.cooldown = self.cooldown.saturating_sub(1);
    }

    pub fn can_reroll(&self) -> (r: bool)
        ensures
            r == self.rerollable(),
    {
        self.face != Face::Malfunction || self.cooldown == 0
    }

    pub fn cooldown(&self) -> (r: Option<u32>)
        ensures
            r == self.shown_cooldown(),
    {
        if self.face == Face::Malfunction && self.cooldown > 0 {
            Some(self.cooldown)
        } else {
            None
        }
    }
}

/// The runtime state of one die.
#[derive(Clone, Copy, PartialEq, Eq, Debug, Structural)]
pub enum DieState {
    /// Frames left to roll, and the face flickering meanwhile.
    Rolling(u32, Face),
    /// Settled.
    Rolled(RolledDie),
}

impl DieState {
    pub open spec fn wf(self) -> bool {
        match self {
            DieState::Rolled(r) => r.wf(),
            DieState::Rolling(_, _) => true,
        }
    }
}

/// The face a die offers to an accepted roll: a settled face other than a malfunction.
pub open spec fn accepted_face(d: DieState) -> Option<Face> {
    match d {
        DieState::Rolled(r) => if r.face != Face::Malfunction {
            Some(r.face)
        } else {
            None
        },
        DieState::Rolling(_, _) => None,
    }
}

/// How much face `f` adds to the count of `kind`: a double shot counts two
/// shots and a triple shot three; every other face counts once, as itself.
pub open spec fn face_tally(f: Face, kind: Face) -> nat {
    if kind == Face::Shoot {
        match f {
            Face::Shoot => 1,
            Face::DoubleShot => 2,
            Face::TripleShot => 3,
            _ => 0,
        }
    } else if f == kind {
        1
    } else {
        0
    }
}

pub open spec fn die_tally(d: DieState, kind: Face) -> nat {
    match accepted_face(d) {
        Some(f) => face_tally(f, kind),
        None => 0,
    }
}

/// The count of `kind` over the faces that `rolls` offer to an accepted roll.
pub open spec fn tally(rolls: Seq<DieState>, kind: Face) -> nat
    decreases rolls.len(),
{
    if rolls.len() == 0 {
        0
    } else {
        tally(rolls.drop_last(), kind) + die_tally(rolls.last(), kind)
    }
}

/// The faces that `rolls` offer to an accepted roll, in die order.
pub open spec fn accepted_faces(rolls: Seq<DieState>) -> Seq<Face>
    decreases rolls.len(),
{
    if rolls.len() == 0 {
        seq![]
    } else {
        accepted_faces(rolls.drop_last()) + match accepted_face(rolls.last()) {
            Some(f) => seq![f],
            None => seq![],
        }
    }
}

/// What is drawn for a die: its face and the cooldown to show.
pub open spec fn render_of(d: DieState) -> (Face, Option<u32>) {
    match d {
        DieState::Rolling(_, f) => (f, None),
        DieState::Rolled(r) => (r.face, r.shown_cooldown()),
    }
}

/// One frame of a die: a rolling die counts down, flickers on even counts and
/// settles when the count is zero; a settled die counts its cooldown down.
pub open spec fn tick(d: DieState, die: Die, draw: i32) -> DieState {
    match d {
        DieState::Rolling(t, p) => if t == 0 {
            DieState::Rolled(RolledDie::locked(die.face_for(draw)))
        } else {
            DieState::Rolling(
                (t - 1) as u32,
                if t % 2 == 0 {
                    die.face_for(draw)
                } else {
                    p
                },
            )
        },
        DieState::Rolled(r) => DieState::Rolled(
            RolledDie { face: r.face, cooldown: sat_sub(r.cooldown as int, 1) as u32 },
        ),
    }
}

proof fn lemma_tick_wf(d: DieState, die: Die, draw: i32)
    requires
        d.wf(),
    ensures
        tick(d, die, draw).wf(),
{
}

/// A manual reroll: a settled die that may be rerolled starts rolling for
/// `time` frames; any other die is left as it is.
pub open spec fn rerolled(d: DieState, die: Die, time: u32, draw: i32) -> DieState {
    match d {
        DieState::Rolled(r) => if r.rerollable() {
            DieState::Rolling(time, die.face_for(draw))
        } else {
            d
        },
        DieState::Rolling(_, _) => d,
    }
}

/// The malfunction cascade of an accepted roll: a settled double shot
/// malfunctions, and when a triple shot was accepted every settled die does.
pub open spec fn cascaded(d: DieState, triple: bool) -> DieState {
    match d {
        DieState::Rolled(r) => if triple || r.face == Face::DoubleShot {
            DieState::Rolled(RolledDie::locked(Face::Malfunction))
        } else {
            d
        },
        DieState::Rolling(_, _) => d,
    }
}

/// The reroll of every die after an accepted roll: every settled die that
/// may be rerolled (any face but a malfunction still cooling down) starts
/// rolling for the full time.
pub open spec fn swept(d: DieState, die: Die, draw: i32) -> DieState {
    match d {
        DieState::Rolled(r) => if r.rerollable() {
            DieState::Rolling(ROLL_TIME_FRAMES_ALL, die.face_for(draw))
        } else {
            d
        },
        DieState::Rolling(_, _) => d,
    }
}

/// The state of every die in play, in die order.
#[derive(Clone, Debug)]
pub struct RolledDice {
    pub rolls: Vec<DieState>,
}

impl RolledDice {
    pub open spec fn wf(self) -> bool {
        forall|i: int| 0 <= i < self.rolls@.len() ==> (#[trigger] self.rolls@[i]).wf()
    }

    /// One frame passes for every die; die `i` draws with `draws[i]`.
    pub fn update(&mut self, player_dice: &PlayerDice, draws: &Vec<i32>)
        requires
            old(self).rolls.len() == player_dice.dice.len(),
            draws.len() == player_dice.dice.len(),
        ensures
            final(self).rolls.len() == old(self).rolls.len(),
            forall|i: int|
                0 <= i < old(self).rolls.len() ==> #[trigger] final(self).rolls@[i] == tick(
                    old(self).rolls@[i],
                    player_dice.dice@[i],
                    draws@[i],
                ),
            old(self).wf() ==> final(self).wf(),
    {
        let n = self.rolls.len();
        let mut i: usize = 0;
        while i < n
            invariant
                n == old(self).rolls.len(),
                n == player_dice.dice.len(),
                n == draws.len(),
                i <= n,
                self.rolls.len() == n,
                forall|j: int|
                    0 <= j < i ==> #[trigger] self.rolls@[j] == tick(
                        old(self).rolls@[j],
                        player_dice.dice@[j],
                        draws@[j],
                    ),
                forall|j: int| i <= j < n ==> #[trigger] self.rolls@[j] == old(self).rolls@[j],
            decreases n - i,
        {
            let die = &player_dice.dice[i];
            let next = match self.rolls[i] {
                DieState::Rolling(timeout, face) => {
                    if timeout == 0 {
                        DieState::Rolled(RolledDie::new(die.roll(draws[i])))
                    } else {
                        let preview = if timeout % 2 == 0 {
                            die.roll(draws[i])
                        } else {
                            face
                        };
                        DieState::Rolling(timeout - 1, preview)
                    }
                },
                DieState::Rolled(rolled) => {
                    let mut rolled = rolled;
                    rolled.update();
                    DieState::Rolled(rolled)
                },
            };
            self.rolls.set(i, next);
            i += 1;
        }
        proof {
            if old(self).wf() {
                assert forall|j: int| 0 <= j < n implies (#[trigger] self.rolls@[j]).wf() by {
                    lemma_tick_wf(old(self).rolls@[j], player_dice.dice@[j], draws@[j]);
                }
            }
        }
    }

    /// Die `i` is rerolled by hand for `time` frames, with random draw `draw`.
    pub fn roll_die(&mut self, player_dice: &PlayerDice, die_index: usize, time: u32, draw: i32)
        requires
            die_index < old(self).rolls.len(),
            old(self).rolls.len() == player_dice.dice.len(),
        ensures
            final(self).rolls@ == old(self).rolls@.update(
                die_index as int,
                rerolled(old(self).rolls@[die_index as int], player_dice.dice@[die_index as int], time, draw),
            ),
            old(self).wf() ==> final(self).wf(),
    {
        if let DieState::Rolled(rolled) = self.rolls[die_index] {
            if rolled.can_reroll() {
                let face = player_dice.dice[die_index].roll(draw);
                self.rolls.set(die_index, DieState::Rolling(time, face));
            }
        }
    }

    /// After an accepted roll: the malfunction cascade, then every settled
    /// die that may be rerolled rolls again; die `i` draws with `draws[i]`.
    pub fn settle_accepted(&mut self, triple: bool, player_dice: &PlayerDice, draws: &Vec<i32>)
        requires
            old(self).rolls.len() == player_dice.dice.len(),
            draws.len() == player_dice.dice.len(),
        ensures
            final(self).rolls.len() == old(self).rolls.len(),
            forall|i: int|
                0 <= i < old(self).rolls.len() ==> #[trigger] final(self).rolls@[i] == swept(
                    cascaded(old(self).rolls@[i], triple),
                    player_dice.dice@[i],
                    draws@[i],
                ),
            old(self).wf() ==> final(self).wf(),
    {
        let n = self.rolls.len();
        let mut i: usize = 0;
        while i < n
            invariant
                n == old(self).rolls.len(),
                n == player_dice.dice.len(),
                n == draws.len(),
                i <= n,
                self.rolls.len() == n,
                forall|j: int|
                    0 <= j < i ==> #[trigger] self.rolls@[j] == swept(
                        cascaded(old(self).rolls@[j], triple),
                        player_dice.dice@[j],
                        draws@[j],
                    ),
                forall|j: int| i <= j < n ==> #[trigger] self.rolls@[j] == old(self).rolls@[j],
            decreases n - i,
        {
            if let DieState::Rolled(rolled) = self.rolls[i] {
                if triple || rolled.face == Face::DoubleShot {
                    self.rolls.set(i, DieState::Rolled(RolledDie::new(Face::Malfunction)));
                } else if rolled.can_reroll() {
                    let face = player_dice.dice[i].roll(draws[i]);
                    self.rolls.set(i, DieState::Rolling(ROLL_TIME_FRAMES_ALL, face));
                }
            }
            i += 1;
        }
    }

    /// The faces offered to an accepted roll: settled, non-malfunctioning ones.
    pub fn faces_for_accepting(&self) -> (r: Vec<Face>)
        ensures
            r@ == accepted_faces(self.rolls@),
    {
        let mut r: Vec<Face> = Vec::new();
        let mut i: usize = 0;
        while i < self.rolls.len()
            invariant
                i <= self.rolls.len(),
                r@ == accepted_faces(self.rolls@.subrange(0, i as int)),
            decreases self.rolls.len() - i,
        {
            proof {
                assert(self.rolls@.subrange(0, i + 1).drop_last() =~= self.rolls@.subrange(
                    0,
                    i as int,
                ));
            }
            if let DieState::Rolled(rolled) = self.rolls[i] {
                if rolled.face != Face::Malfunction {
                    r.push(rolled.face);
                }
            }
            i += 1;
        }
        proof {
            assert(self.rolls@.subrange(0, self.rolls.len() as int) =~= self.rolls@);
        }
        r
    }

    /// What to draw for each die.
    pub fn faces_to_render(&self) -> (r: Vec<(Face, Option<u32>)>)
        ensures
            r.len() == self.rolls.len(),
            forall|i: int| 0 <= i < r.len() ==> #[trigger] r@[i] == render_of(self.rolls@[i]),
    {
        let mut r: Vec<(Face, Option<u32>)> = Vec::new();
        let mut i: usize = 0;
        while i < self.rolls.len()
            invariant
                i <= self.rolls.len(),
                r.len() == i,
                forall|j: int| 0 <= j < i ==> #[trigger] r@[j] == render_of(self.rolls@[j]),
            decreases self.rolls.len() - i,
        {
            let shown = match self.rolls[i] {
                DieState::Rolling(_, face) => (face, None),
                DieState::Rolled(rolled) => (rolled.face, rolled.cooldown()),
            };
            r.push(shown);
            i += 1;
        }
        r
    }

    /// The count of `kind` over the accepted faces, capped at the largest `u32`.
    pub fn tally(&self, kind: Face) -> (r: u32)
        ensures
            r == cap_u32(tally(self.rolls@, kind) as int),
    {
        let mut count: u32 = 0;
        let mut i: usize = 0;
        while i < self.rolls.len()
            invariant
                i <= self.rolls.len(),
                count == cap_u32(tally(self.rolls@.subrange(0, i as int), kind) as int),
            decreases self.rolls.len() - i,
        {
            proof {
                assert(self.rolls@.subrange(0, i + 1).drop_last() =~= self.rolls@.subrange(
                    0,
                    i as int,
                ));
            }
            let add: u32 = match self.rolls[i] {
                DieState::Rolled(rolled) => if rolled.face == Face::Malfunction {
                    0
                } else {
                    face_count(rolled.face, kind)
                },
                DieState::Rolling(_, _) => 0,
            };
            count = count.saturating_add(add);
            i += 1;
        }
        proof {
            assert(self.rolls@.subrange(0, self.rolls.len() as int) =~= self.rolls@);
        }
        count
    }
}

/// How much face `f` adds to the count of `kind`.
pub fn face_count(f: Face, kind: Face) -> (r: u32)
    ensures
        r == face_tally(f, kind),
{
    if kind == Face::Shoot {
        match f {
            Face::Shoot => 1,
            Face::DoubleShot => 2,
            Face::TripleShot => 3,
            _ => 0,
        }
    } else if f == kind {
        1
    } else {
        0
    }
}

} // verus!
