//! Checkpoints: touching one records the respawn position (nudged slightly
//! upward so the player never respawns inside geometry) and the current
//! level, and flags the player as near a checkpoint for the interaction
//! prompt.

use vstd::prelude::*;
use crate::entity::player::Player;
use crate::physics::Pos;

verus! {

/// Marker for a checkpoint entity.
#[derive(Clone, Copy, Debug, PartialEq, Eq, Structural)]
pub struct Checkpoint;

/// Upward nudge applied to a saved checkpoint position, in world units.
pub const CHECKPOINT_SAVE_OFFSET_Y: i64 = 3;

/// React to the player entering (`started`) or leaving a checkpoint's sensor
/// volume.  Entering saves the checkpoint's position (nudged upward) and the
/// current level as the player's respawn point and raises the near-checkpoint
/// flag; leaving only lowers the flag.  This is the sole writer of checkpoint
/// state besides the initial spawn defaults.  Returns whether the
/// checkpoint's prompt text should now be visible.
pub fn check_near(
    player: &mut Player,
    started: bool,
    checkpoint_pos: Pos,
    current_level: u32,
) -> (show_text: bool)
    requires
        checkpoint_pos.wf(),
    ensures
        started ==> *final(player) == (Player {
            checkpoint: Pos {
                x: checkpoint_pos.x,
                y: (checkpoint_pos.y + CHECKPOINT_SAVE_OFFSET_Y) as i64,
            },
            checkpoint_level: current_level,
            near_checkpoint: true,
            ..*old(player)
        }),
        !started ==> *final(player) == (Player { near_checkpoint: false, ..*old(player) }),
        show_text == started,
{
    if started {
        player.checkpoint = Pos {
            x: checkpoint_pos.x,
            y: checkpoint_pos.y + CHECKPOINT_SAVE_OFFSET_Y,
        };
        player.checkpoint_level = current_level;
        player.near_checkpoint = true;
        true
    } else {
        player.near_checkpoint = false;
        false
    }
}

} // verus!
