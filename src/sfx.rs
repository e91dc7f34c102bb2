use vstd::prelude::*;

verus! {

/// Frames the music takes to cross-fade between battle and menu.
pub const MAX_CROSSFADE_FRAMES: i16 = 1;

/// Which music plays.
#[derive(Clone, Copy, PartialEq, Eq, Debug, Structural)]
pub enum BattleOrMenu {
    Battle,
    Menu,
}

/// The cross-fade between the battle and the menu music.
#[derive(Clone, Copy, PartialEq, Eq, Debug, Structural)]
pub struct Crossfade {
    pub frames_for_cross_fade: i16,
    pub state: BattleOrMenu,
}

impl Crossfade {
    pub open spec fn wf(self) -> bool {
        0 <= self.frames_for_cross_fade <= MAX_CROSSFADE_FRAMES
    }

    /// The menu music plays, fully faded in.
    pub fn new() -> (r: Self)
        ensures
            r.wf(),
            r.frames_for_cross_fade == MAX_CROSSFADE_FRAMES,
            r.state == BattleOrMenu::Menu,
    {
        Crossfade { frames_for_cross_fade: MAX_CROSSFADE_FRAMES, state: BattleOrMenu::Menu }
    }

    /// One frame of fading. Returns the volumes of the two channels, battle
    /// first, as numerators over `MAX_CROSSFADE_FRAMES`.
    pub fn frame(&mut self) -> (r: (i16, i16))
        requires
            old(self).wf(),
        ensures
            final(self).wf(),
            final(self).state == old(self).state,
            final(self).frames_for_cross_fade == if old(self).frames_for_cross_fade
                < MAX_CROSSFADE_FRAMES {
                old(self).frames_for_cross_fade + 1
            } else {
                MAX_CROSSFADE_FRAMES as int
            },
            ({
                let f = final(self).frames_for_cross_fade;
                r == match old(self).state {
                    BattleOrMenu::Battle => ((MAX_CROSSFADE_FRAMES - f) as i16, f),
                    BattleOrMenu::Menu => (f, (MAX_CROSSFADE_FRAMES - f) as i16),
                }
            }),
    {
        if self.frames_for_cross_fade < MAX_CROSSFADE_FRAMES {
            self.frames_for_cross_fade = self.frames_for_cross_fade + 1;
        }
        let active = self.frames_for_cross_fade;
        match self.state {
            BattleOrMenu::Battle => (MAX_CROSSFADE_FRAMES - active, active),
            BattleOrMenu::Menu => (active, MAX_CROSSFADE_FRAMES - active),
        }
    }

    /// Switches to the battle music, starting the fade unless it already plays.
    pub fn battle(&mut self)
        requires
            old(self).wf(),
        ensures
            final(self).wf(),
            final(self).state == BattleOrMenu::Battle,
            final(self).frames_for_cross_fade == if old(self).state == BattleOrMenu::Battle {
                old(self).frames_for_cross_fade
            } else {
                0
            },
    {
        if self.state == BattleOrMenu::Battle {
            return;
        }
        self.state = BattleOrMenu::Battle;
        self.frames_for_cross_fade = 0;
    }

    /// Switches to the menu music, starting the fade unless it already plays.
    pub fn customise(&mut self)
        requires
            old(self).wf(),
        ensures
            final(self).wf(),
            final(self).state == BattleOrMenu::Menu,
            final(self).frames_for_cross_fade == if old(self).state == BattleOrMenu::Menu {
                old(self).frames_for_cross_fade
            } else {
                0
            },
    {
        if self.state == BattleOrMenu::Menu {
            return;
        }
        self.state = BattleOrMenu::Menu;
        self.frames_for_cross_fade = 0;
    }
}

} // verus!
