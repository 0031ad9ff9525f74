//! The player's aggregate unlock and equip state, checkpoint bookkeeping, and
//! the player's locomotion animation states with their frame windows.

use vstd::prelude::*;
use crate::abilities::Element;
use crate::abilities::Equipment;
use crate::animation::Animated;
use crate::physics::Pos;

verus! {

/// Default spawn point used until the first checkpoint is touched.
pub const DEFAULT_SPAWN_X: i64 = -1064;

/// Default spawn point used until the first checkpoint is touched.
pub const DEFAULT_SPAWN_Y: i64 = 776;

/// Unlock flags for each element and piece of equipment, the active
/// (equipment, element) combination, and the last saved checkpoint.
#[derive(Clone, Copy, Debug, PartialEq, Eq)]
pub struct Player {
    pub checkpoint: Pos,
    pub checkpoint_level: u32,
    pub unlocked_fire: bool,
    pub unlocked_air: bool,
    pub unlocked_water: bool,
    pub unlocked_boots: bool,
    pub unlocked_cloak: bool,
    pub combination: (Option<Equipment>, Option<Element>),
    pub near_checkpoint: bool,
}

impl Default for Player {
    /// Nothing unlocked, nothing equipped, checkpoint at the origin.
    fn default() -> (p: Player)
        ensures
            p == Player::spec_default(),
    {
        Player {
            checkpoint: Pos { x: 0, y: 0 },
            checkpoint_level: 0,
            unlocked_fire: false,
            unlocked_air: false,
            unlocked_water: false,
            unlocked_boots: false,
            unlocked_cloak: false,
            combination: (None, None),
            near_checkpoint: false,
        }
    }
}

impl Player {
    pub open spec fn spec_default() -> Player {
        Player {
            checkpoint: Pos { x: 0, y: 0 },
            checkpoint_level: 0,
            unlocked_fire: false,
            unlocked_air: false,
            unlocked_water: false,
            unlocked_boots: false,
            unlocked_cloak: false,
            combination: (None, None),
            near_checkpoint: false,
        }
    }

    pub open spec fn spec_has_equipt(self, equipment: Equipment) -> bool {
        self.combination.0 == Some(equipment)
    }

    /// Whether `equipment` sits in the active combination's equipment slot.
    pub fn has_equipt(&self, equipment: Equipment) -> (r: bool)
        ensures
            r == self.spec_has_equipt(equipment),
    {
        match &self.combination.0 {
            Some(slot) => *slot == equipment,
            None => false,
        }
    }

    pub open spec fn spec_has_infused(self, element: Element) -> bool {
        self.combination.1 == Some(element)
    }

    /// Whether `element` sits in the active combination's element slot.
    pub fn has_infused(&self, element: Element) -> (r: bool)
        ensures
            r == self.spec_has_infused(element),
    {
        match &self.combination.1 {
            Some(slot) => *slot == element,
            None => false,
        }
    }

    pub open spec fn spec_combination_description(self) -> Seq<char> {
        match self.combination {
            (Some(Equipment::Staff), Some(Element::Fire)) => "<x> to cast Fireball"@,
            (Some(Equipment::Staff), Some(Element::Air)) => "<x> to cast a gust of wind"@,
            (Some(Equipment::Staff), Some(Element::Water)) => "<x> to summon water"@,
            (Some(Equipment::MagicBoots), Some(Element::Fire)) => "Jump higher with an explosive kick"@,
            (Some(Equipment::MagicBoots), Some(Element::Air)) => "Double jump"@,
            (Some(Equipment::MagicBoots), Some(Element::Water)) => "Flow like water (movement speed up)"@,
            (Some(Equipment::Cloak), Some(Element::Fire)) => "Lava resistance"@,
            (Some(Equipment::Cloak), Some(Element::Water)) => "Water resistance"@,
            _ => "No effect"@,
        }
    }

    /// The effect description of the active combination, shown by the menu.
    pub fn get_combination_description(&self) -> (r: &'static str)
        ensures
            r@ == self.spec_combination_description(),
    {
        match self.combination {
            (Some(Equipment::Staff), Some(Element::Fire)) => "<x> to cast Fireball",
            (Some(Equipment::Staff), Some(Element::Air)) => "<x> to cast a gust of wind",
            (Some(Equipment::Staff), Some(Element::Water)) => "<x> to summon water",
            (Some(Equipment::MagicBoots), Some(Element::Fire)) => "Jump higher with an explosive kick",
            (Some(Equipment::MagicBoots), Some(Element::Air)) => "Double jump",
            (Some(Equipment::MagicBoots), Some(Element::Water)) => "Flow like water (movement speed up)",
            (Some(Equipment::Cloak), Some(Element::Fire)) => "Lava resistance",
            (Some(Equipment::Cloak), Some(Element::Water)) => "Water resistance",
            _ => "No effect",
        }
    }

    pub open spec fn spec_num_equipment(self) -> int {
        1 + (if self.unlocked_boots {
            1int
        } else {
            0int
        }) + (if self.unlocked_cloak {
            1int
        } else {
            0int
        })
    }

    /// The number of equipment pieces unlocked, the staff included.
    pub fn num_equipment(&self) -> (count: u8)
        ensures
            count as int == self.spec_num_equipment(),
            1 <= count <= 3,
    {
        let mut count: u8 = 1;
        if self.unlocked_boots {
            count += 1;
        }
        if self.unlocked_cloak {
            count += 1;
        }
        count
    }

    pub open spec fn spec_num_elements(self) -> int {
        (if self.unlocked_fire {
            1int
        } else {
            0int
        }) + (if self.unlocked_air {
            1int
        } else {
            0int
        }) + (if self.unlocked_water {
            1int
        } else {
            0int
        })
    }

    /// The number of elements unlocked.
    pub fn num_elements(&self) -> (count: u8)
        ensures
            count as int == self.spec_num_elements(),
            count <= 3,
    {
        let mut count: u8 = 0;
        if self.unlocked_fire {
            count += 1;
        }
        if self.unlocked_air {
            count += 1;
        }
        if self.unlocked_water {
            count += 1;
        }
        count
    }
}

/// The player's discrete locomotion states; a pure classification of the
/// current physical or narrative state, never carrying continuous data.
#[derive(Clone, Copy, Debug, PartialEq, Eq, Structural)]
pub enum AnimationState {
    Idle,
    Walking,
    JumpUp,
    JumpDown,
    Death,
}

impl Default for AnimationState {
    fn default() -> (s: AnimationState)
        ensures
            s == AnimationState::Idle,
    {
        AnimationState::Idle
    }
}

/// The frame window of each player animation state.
pub open spec fn spec_frames(state: AnimationState) -> (usize, usize) {
    match state {
        AnimationState::Idle => (40usize, 44usize),
        AnimationState::Walking => (8usize, 14usize),
        AnimationState::JumpUp => (56usize, 59usize),
        AnimationState::JumpDown => (48usize, 51usize),
        AnimationState::Death => (0usize, 8usize),
    }
}

/// React to a change of the player's animation state: retarget the frame
/// window and snap the sprite onto its first frame.  Returns the new sprite
/// index.
pub fn animation_state_update(animation: &mut Animated, state: &AnimationState) -> (index: usize)
    requires
        old(animation).wf(),
    ensures
        final(animation).start == spec_frames(*state).0,
        final(animation).end == spec_frames(*state).1,
        final(animation).timer == old(animation).timer,
        final(animation).play_once == old(animation).play_once,
        index == spec_frames(*state).0,
        final(animation).wf(),
{
    match state {
        AnimationState::Idle => {
            animation.start = 40;
            animation.end = 44;
        },
        AnimationState::Walking => {
            animation.start = 8;
            animation.end = 14;
        },
        AnimationState::JumpUp => {
            animation.start = 56;
            animation.end = 59;
        },
        AnimationState::JumpDown => {
            animation.start = 48;
            animation.end = 51;
        },
        AnimationState::Death => {
            animation.start = 0;
            animation.end = 8;
        },
    }
    animation.start
}

/// Record the default spawn point and the current level as the player's
/// checkpoint, as done once when the player first appears.
pub fn set_spawn(player: &mut Player, current_level: u32)
    ensures
        *final(player) == (Player {
            checkpoint: Pos { x: DEFAULT_SPAWN_X, y: DEFAULT_SPAWN_Y },
            checkpoint_level: current_level,
            ..*old(player)
        }),
{
    player.checkpoint = Pos { x: DEFAULT_SPAWN_X, y: DEFAULT_SPAWN_Y };
    player.checkpoint_level = current_level;
}

} // verus!
