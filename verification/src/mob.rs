//! An enemy: how fast it may fly and what it shows.

use vstd::prelude::*;

verus! {

/// Something the host engine is to do with an enemy's sprite.
#[derive(Clone, Copy, Debug, PartialEq, Eq)]
pub enum MobCommand {
    /// Let the sprite's animation run.
    PlaySprite,
    /// Switch the sprite to the animation of this name.
    SetAnimation(&'static str),
}

/// An enemy. Its speed is drawn when it appears, from `min_speed` up to, but
/// not including, `max_speed`, both in whole units per second.
#[derive(Clone, Copy, Debug, PartialEq, Eq)]
pub struct Mob {
    min_speed: u16,
    max_speed: u16,
}

impl Mob {
    /// There is always a speed to draw: the range is not empty.
    #[verifier::type_invariant]
    spec fn well_formed(&self) -> bool {
        self.min_speed < self.max_speed
    }

    /// The lowest speed of the enemy.
    pub closed spec fn spec_min_speed(&self) -> int {
        self.min_speed as int
    }

    /// The speed that the enemy stays below.
    pub closed spec fn spec_max_speed(&self) -> int {
        self.max_speed as int
    }

    /// An enemy that flies at 300 or more and less than 600 units per second.
    pub fn init() -> (mob: Mob)
        ensures
            mob.spec_min_speed() == 300,
            mob.spec_max_speed() == 600,
    {
        Mob { min_speed: 300, max_speed: 600 }
    }

    /// The lowest speed of the enemy.
    pub fn min_speed(&self) -> (speed: u16)
        ensures
            speed == self.spec_min_speed(),
            speed < self.spec_max_speed(),
    {
        proof {
            use_type_invariant(self);
        }
        self.min_speed
    }

    /// The speed that the enemy stays below.
    pub fn max_speed(&self) -> (speed: u16)
        ensures
            speed == self.spec_max_speed(),
            speed > self.spec_min_speed(),
    {
        proof {
            use_type_invariant(self);
        }
        self.max_speed
    }

    /// The enemy entered the scene: its sprite runs, showing the flying
    /// animation.
    pub fn ready(&self) -> (commands: Vec<MobCommand>)
        ensures
            commands@ == seq![MobCommand::PlaySprite, MobCommand::SetAnimation("fly")],
    {
        vec![MobCommand::PlaySprite, MobCommand::SetAnimation("fly")]
    }
}

} // verus!
