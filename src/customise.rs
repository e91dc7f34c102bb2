use vstd::arithmetic::div_mod::lemma_fundamental_div_mod_converse;
use vstd::prelude::*;

use crate::face::{Face, PlayerDice};

verus! {

/// Width of the screen in pixels.
pub const SCREEN_WIDTH: u32 = 240;

/// Height of the screen in pixels.
pub const SCREEN_HEIGHT: u32 = 160;

/// A direction on one axis of the direction pad.
#[derive(Clone, Copy, PartialEq, Eq, Debug, Structural)]
pub enum Tri {
    Positive,
    Zero,
    Negative,
}

pub open spec fn tri_delta(t: Tri) -> int {
    match t {
        Tri::Positive => 1,
        Tri::Zero => 0,
        Tri::Negative => -1,
    }
}

impl Tri {
    /// The direction of a pair of buttons: the first points back, the second
    /// forward, and both together cancel out.
    pub fn from_pair(negative: bool, positive: bool) -> (r: Tri)
        ensures
            tri_delta(r) == (if positive { 1int } else { 0 }) - (if negative { 1int } else { 0 }),
    {
        if negative && !positive {
            Tri::Negative
        } else if positive && !negative {
            Tri::Positive
        } else {
            Tri::Zero
        }
    }
}

/// Moves `index` by `delta` around a ring of `len` places; `index` may
/// stand one past the last place.
pub fn wrap_index(index: usize, delta: Tri, len: usize) -> (r: usize)
    requires
        0 < len < usize::MAX,
        index <= len,
    ensures
        r as int == (index + tri_delta(delta)) % (len as int),
        r < len,
{
    match delta {
        Tri::Zero => index % len,
        Tri::Positive => (index + 1) % len,
        Tri::Negative => if index == 0 {
            proof {
                lemma_fundamental_div_mod_converse(-1, len as int, -1, len - 1);
            }
            len - 1
        } else {
            (index - 1) % len
        },
    }
}

/// Where face `idx` of a die sits in its unfolded net: four faces in a row,
/// one above the second and one below it.
pub open spec fn net_position(idx: usize) -> (u32, u32) {
    if idx == 4 {
        (1, 0)
    } else if idx == 5 {
        (1, 2)
    } else {
        (idx as u32, 1)
    }
}

pub fn net_position_for_index(idx: usize) -> (r: (u32, u32))
    ensures
        r == net_position(idx),
{
    if idx == 4 {
        (1, 0)
    } else if idx == 5 {
        (1, 2)
    } else {
        (idx as u32, 1)
    }
}

/// The centre on screen of face `idx` of the net.
pub fn screen_position_for_index(idx: usize) -> (r: (u32, u32))
    requires
        idx < 6,
    ensures
        r.0 == net_position(idx).0 * 32 + 20,
        r.1 == net_position(idx).1 * 32 + SCREEN_HEIGHT - 3 * 32,
{
    let (x, y) = net_position_for_index(idx);
    (x * 32 + 20, y * 32 + SCREEN_HEIGHT - 3 * 32)
}

/// Left and right on the net: along the row of four, wrapping round; from
/// the faces above and below, right leads to face 2 and left to face 0.
pub open spec fn net_moved_lr(idx: usize, direction: Tri) -> usize {
    match direction {
        Tri::Zero => idx,
        Tri::Positive => if idx >= 4 {
            2
        } else {
            ((idx + 1) % 4) as usize
        },
        Tri::Negative => if idx >= 4 {
            0
        } else if idx == 0 {
            3
        } else {
            (idx - 1) as usize
        },
    }
}

/// Up and down on the net: the row, the face above and the face below form
/// a ring, the row returning to face 1.
pub open spec fn net_moved_ud(idx: usize, direction: Tri) -> usize {
    match direction {
        Tri::Zero => idx,
        Tri::Negative => if idx < 4 {
            4
        } else if idx == 4 {
            5
        } else {
            1
        },
        Tri::Positive => if idx < 4 {
            5
        } else if idx == 4 {
            1
        } else {
            4
        },
    }
}

pub fn move_net_position_lr(idx: usize, direction: Tri) -> (r: usize)
    ensures
        r == net_moved_lr(idx, direction),
{
    match direction {
        Tri::Zero => idx,
        Tri::Positive => {
            if idx >= 4 {
                2
            } else {
                (idx + 1) % 4
            }
        },
        Tri::Negative => {
            if idx >= 4 {
                0
            } else if idx == 0 {
                3
            } else {
                idx - 1
            }
        },
    }
}

pub fn move_net_position_ud(idx: usize, direction: Tri) -> (r: usize)
    requires
        idx < 6,
    ensures
        r == net_moved_ud(idx, direction),
{
    match direction {
        Tri::Zero => idx,
        Tri::Negative => {
            if idx < 4 {
                4
            } else if idx == 4 {
                5
            } else {
                1
            }
        },
        Tri::Positive => {
            if idx < 4 {
                5
            } else if idx == 4 {
                1
            } else {
                4
            }
        },
    }
}

/// Where upgrade `idx` is listed on screen.
pub fn upgrade_position(idx: usize) -> (r: (u32, u32))
    requires
        idx * 32 + SCREEN_HEIGHT <= u32::MAX,
    ensures
        r.0 == SCREEN_WIDTH - 80,
        r.1 == idx * 32 + SCREEN_HEIGHT - 3 * 32,
{
    (SCREEN_WIDTH - 80, (idx * 32 + SCREEN_HEIGHT as usize - 3 * 32) as u32)
}

/// The upgrades offered between battles.
pub fn generate_upgrades(_difficulty: u32) -> (r: Vec<Face>)
    ensures
        r@ == seq![Face::Shoot, Face::Shield, Face::Malfunction],
{
    let r = vec![Face::Shoot, Face::Shield, Face::Malfunction];
    proof {
        assert(r@ =~= seq![Face::Shoot, Face::Shield, Face::Malfunction]);
    }
    r
}


/// Where the cursor of the customisation screen is.
#[derive(Clone, Copy, PartialEq, Eq, Debug, Structural)]
pub enum CustomiseState {
    /// Choosing a die.
    Dice { dice: usize },
    /// Choosing a face of that die on its net.
    Face { dice: usize, face: usize },
    /// Choosing the upgrade to put on that face.
    Upgrade { dice: usize, face: usize, upgrade: usize },
}

/// The buttons of one frame on the customisation screen.
#[derive(Clone, Copy, PartialEq, Eq, Debug, Structural)]
pub struct CustomiseInput {
    pub lr: Tri,
    pub ud: Tri,
    /// Select.
    pub a: bool,
    /// Back.
    pub b: bool,
}

/// What the screen must draw anew after a step.
#[derive(Clone, Copy, PartialEq, Eq, Debug, Structural)]
pub enum Redraw {
    Nothing,
    /// The net of the chosen die.
    Net,
    /// The description of the chosen upgrade.
    Description,
    /// The dice, their net and the upgrades left.
    Everything,
}

/// The customisation screen: the player's dice and the upgrades on offer.
#[derive(Clone, Debug)]
pub struct CustomiseScreen {
    pub state: CustomiseState,
    pub player_dice: PlayerDice,
    pub upgrades: Vec<Face>,
}

impl CustomiseScreen {
    /// The cursor points at a die, a face and an upgrade that exist; the
    /// upgrade may stand one past the list just after it was opened.
    pub open spec fn wf(self) -> bool {
        let n = self.player_dice.dice.len();
        &&& 0 < n < usize::MAX
        &&& self.upgrades.len() < usize::MAX
        &&& match self.state {
            CustomiseState::Dice { dice } => dice < n,
            CustomiseState::Face { dice, face } => dice < n && face < 6,
            CustomiseState::Upgrade { dice, face, upgrade } => dice < n && face < 6
                && 0 < self.upgrades.len() && upgrade <= self.upgrades.len(),
        }
    }

    /// The screen opens on the first die.
    pub fn new(player_dice: PlayerDice, upgrades: Vec<Face>) -> (r: Self)
        requires
            0 < player_dice.dice.len() < usize::MAX,
            upgrades.len() < usize::MAX,
        ensures
            r.wf(),
            r.state == (CustomiseState::Dice { dice: 0 }),
            r.player_dice == player_dice,
            r.upgrades == upgrades,
    {
        CustomiseScreen { state: CustomiseState::Dice { dice: 0 }, player_dice, upgrades }
    }

    /// One frame of input.
    ///
    /// Choosing a die, left and right move round the dice and select opens
    /// the net on face 1. On the net, the pad moves between faces, back
    /// returns to the dice and select opens the upgrades, if any are left.
    /// Among the upgrades, up and down move round the list; back returns to
    /// the net, and select puts the upgrade on the face, unless the face
    /// shows it already, and takes it off the list.
    pub fn step(&mut self, input: CustomiseInput) -> (r: Redraw)
        requires
            old(self).wf(),
        ensures
            final(self).wf(),
            match old(self).state {
                CustomiseState::Dice { dice } => {
                    let n = old(self).player_dice.dice.len() as int;
                    let moved = ((dice + tri_delta(input.lr)) % n) as usize;
                    &&& final(self).state == if input.a {
                        CustomiseState::Face { dice: moved, face: 1 }
                    } else {
                        CustomiseState::Dice { dice: moved }
                    }
                    &&& final(self).player_dice == old(self).player_dice
                    &&& final(self).upgrades == old(self).upgrades
                    &&& r == if moved != dice {
                        Redraw::Net
                    } else {
                        Redraw::Nothing
                    }
                },
                CustomiseState::Face { dice, face } => {
                    let moved = net_moved_ud(net_moved_lr(face, input.lr), input.ud);
                    &&& final(self).state == if input.b {
                        CustomiseState::Dice { dice }
                    } else if input.a && old(self).upgrades.len() > 0 {
                        CustomiseState::Upgrade {
                            dice,
                            face: moved,
                            upgrade: old(self).upgrades.len(),
                        }
                    } else {
                        CustomiseState::Face { dice, face: moved }
                    }
                    &&& final(self).player_dice == old(self).player_dice
                    &&& final(self).upgrades == old(self).upgrades
                    &&& r == Redraw::Nothing
                },
                CustomiseState::Upgrade { dice, face, upgrade } => {
                    let n = old(self).upgrades.len() as int;
                    let moved = ((upgrade + tri_delta(input.ud)) % n) as usize;
                    let chosen = old(self).upgrades@[moved as int];
                    let old_die = old(self).player_dice.dice@[dice as int];
                    if !input.b && input.a && old_die.faces@[face as int] != chosen {
                        &&& final(self).state == CustomiseState::Face { dice, face }
                        &&& final(self).player_dice.dice.len() == old(self).player_dice.dice.len()
                        &&& final(self).player_dice.dice@[dice as int].faces@
                            == old_die.faces@.update(face as int, chosen)
                        &&& forall|k: int|
                            0 <= k < old(self).player_dice.dice.len() && k != dice
                                ==> #[trigger] final(self).player_dice.dice@[k]
                                == old(self).player_dice.dice@[k]
                        &&& final(self).upgrades@ == old(self).upgrades@.remove(moved as int)
                        &&& r == Redraw::Everything
                    } else {
                        &&& final(self).state == if input.b {
                            CustomiseState::Face { dice, face }
                        } else {
                            CustomiseState::Upgrade { dice, face, upgrade: moved }
                        }
                        &&& final(self).player_dice == old(self).player_dice
                        &&& final(self).upgrades == old(self).upgrades
                        &&& r == if moved != upgrade {
                            Redraw::Description
                        } else {
                            Redraw::Nothing
                        }
                    }
                },
            },
    {
        match self.state {
            CustomiseState::Dice { dice } => {
                let moved = wrap_index(dice, input.lr, self.player_dice.dice.len());
                self.state = if input.a {
                    CustomiseState::Face { dice: moved, face: 1 }
                } else {
                    CustomiseState::Dice { dice: moved }
                };
                if moved != dice {
                    Redraw::Net
                } else {
                    Redraw::Nothing
                }
            },
            CustomiseState::Face { dice, face } => {
                let moved = move_net_position_ud(move_net_position_lr(face, input.lr), input.ud);
                self.state = if input.b {
                    CustomiseState::Dice { dice }
                } else if input.a && self.upgrades.len() > 0 {
                    CustomiseState::Upgrade { dice, face: moved, upgrade: self.upgrades.len() }
                } else {
                    CustomiseState::Face { dice, face: moved }
                };
                Redraw::Nothing
            },
            CustomiseState::Upgrade { dice, face, upgrade } => {
                let moved = wrap_index(upgrade, input.ud, self.upgrades.len());
                let chosen = self.upgrades[moved];
                let mut die = self.player_dice.dice[dice];
                if !input.b && input.a && die.faces[face] != chosen {
                    die.faces[face] = chosen;
                    self.player_dice.dice.set(dice, die);
                    self.upgrades.remove(moved);
                    self.state = CustomiseState::Face { dice, face };
                    Redraw::Everything
                } else {
                    self.state = if input.b {
                        CustomiseState::Face { dice, face }
                    } else {
                        CustomiseState::Upgrade { dice, face, upgrade: moved }
                    };
                    if moved != upgrade {
                        Redraw::Description
                    } else {
                        Redraw::Nothing
                    }
                }
            },
        }
    }
}

} // verus!
