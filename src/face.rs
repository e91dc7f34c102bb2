use vstd::arithmetic::div_mod::{lemma_fundamental_div_mod, lemma_fundamental_div_mod_converse};
use vstd::prelude::*;

verus! {

/// The symbol a die shows.
#[derive(Clone, Copy, PartialEq, Eq, Debug, Hash, Structural)]
pub enum Face {
    Shoot,
    Shield,
    Malfunction,
    Heal,
    Bypass,
    DoubleShot,
    TripleShot,
    Blank,
    Disrupt,
}

/// A ship drawn on the battle screen.
#[derive(Clone, Copy, PartialEq, Eq, Debug, Hash, Structural)]
pub enum Ship {
    Player,
    Drone,
    Shield,
}

/// The remainder of `draw` divided by `n`, always in `0..n`.
pub fn draw_below(draw: i32, n: u32) -> (r: u32)
    requires
        n > 0,
    ensures
        r as int == (draw as int) % (n as int),
        r < n,
{
    if draw >= 0 {
        (draw as u32) % n
    } else {
        let k: u32 = (-(draw as i64)) as u32;
        let rk: u32 = k % n;
        proof {
            let q = (k as int) / (n as int);
            lemma_fundamental_div_mod(k as int, n as int);
            if rk == 0 {
                assert(draw as int == (-q) * (n as int) + 0) by (nonlinear_arith)
                    requires
                        draw as int == -(k as int),
                        k as int == (n as int) * q + rk,
                        rk == 0,
                ;
                lemma_fundamental_div_mod_converse(draw as int, n as int, -q, 0);
            } else {
                assert(draw as int == (-q - 1) * (n as int) + (n - rk)) by (nonlinear_arith)
                    requires
                        draw as int == -(k as int),
                        k as int == (n as int) * q + rk,
                ;
                lemma_fundamental_div_mod_converse(draw as int, n as int, -q - 1, (n - rk) as int);
            }
        }
        if rk == 0 {
            0
        } else {
            n - rk
        }
    }
}

/// A six-sided die; the index of a face is the roll outcome that shows it.
#[derive(Clone, Copy, Debug)]
pub struct Die {
    pub faces: [Face; 6],
}

impl Die {
    /// The face that a roll with random draw `draw` shows.
    pub open spec fn face_for(self, draw: i32) -> Face {
        self.faces@[(draw as int) % 6]
    }

    /// Rolls this die: the face at index `draw` modulo six.
    pub fn roll(&self, draw: i32) -> (r: Face)
        ensures
            r == self.face_for(draw),
    {
        let n = draw_below(draw, 6);
        self.faces[n as usize]
    }
}

impl Die {
    /// The die every player starts with: one shot, one shield, one malfunction
    /// and three blanks.
    pub fn basic() -> (r: Die)
        ensures
            r.faces@ == seq![
                Face::Shoot,
                Face::Shield,
                Face::Blank,
                Face::Malfunction,
                Face::Blank,
                Face::Blank,
            ],
    {
        let r = Die {
            faces: [Face::Shoot, Face::Shield, Face::Blank, Face::Malfunction, Face::Blank, Face::Blank],
        };
        proof {
            assert(r.faces@ =~= seq![
                Face::Shoot,
                Face::Shield,
                Face::Blank,
                Face::Malfunction,
                Face::Blank,
                Face::Blank,
            ]);
        }
        r
    }
}

/// Does the player gain a die on reaching `level`? Every fifth level.
pub fn gains_die(level: u32) -> (r: bool)
    ensures
        r == (level % 5 == 0),
{
    level % 5 == 0
}

/// The player's dice, in order.
#[derive(Clone, Debug)]
pub struct PlayerDice {
    pub dice: Vec<Die>,
}

} // verus!
