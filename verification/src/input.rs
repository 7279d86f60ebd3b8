//! Input polling model: button identities, the newly-pressed diff, and the
//! per-frame decision whether the demo loop keeps running.
//!
//! The hardware reports button state as a bit mask, one bit per physical
//! button. A snapshot of newly pressed buttons is the diff of the current
//! mask against the previous frame's mask. The demo loops exit exactly when
//! the dedicated exit button (+) is in the newly-pressed set, whatever else
//! was pressed with it.

use vstd::prelude::*;

verus! {

/// Bit for the A button.
pub const KEY_A: u32 = 0x1;

/// Bit for the B button.
pub const KEY_B: u32 = 0x2;

/// Bit for the X button.
pub const KEY_X: u32 = 0x4;

/// Bit for the Y button.
pub const KEY_Y: u32 = 0x8;

/// Bit for the left shoulder button.
pub const KEY_L: u32 = 0x40;

/// Bit for the right shoulder button.
pub const KEY_R: u32 = 0x80;

/// Bit for the left trigger button.
pub const KEY_ZL: u32 = 0x100;

/// Bit for the right trigger button.
pub const KEY_ZR: u32 = 0x200;

/// Bit for the (+) button, the dedicated exit button.
pub const KEY_PLUS: u32 = 0x400;

/// Bit for the (-) button.
pub const KEY_MINUS: u32 = 0x800;

/// Bit for the directional pad, left.
pub const KEY_DLEFT: u32 = 0x1000;

/// Bit for the directional pad, up.
pub const KEY_DUP: u32 = 0x2000;

/// Bit for the directional pad, right.
pub const KEY_DRIGHT: u32 = 0x4000;

/// Bit for the directional pad, down.
pub const KEY_DDOWN: u32 = 0x8000;

/// The mask of buttons newly pressed this frame: held in `current` but not
/// in `previous`.
pub open spec fn spec_newly_pressed(previous: u32, current: u32) -> u32 {
    current & !previous
}

/// Diffs the current button mask against the previous frame's mask, keeping
/// exactly the buttons that transitioned from released to pressed.
pub fn newly_pressed(previous: u32, current: u32) -> (r: u32)
    ensures
        r == spec_newly_pressed(previous, current),
{
    current & !previous
}

/// A button is in the newly-pressed mask exactly when it is down now and was
/// not down on the previous frame.
pub proof fn lemma_newly_pressed_is_transition(previous: u32, current: u32, button: u32)
    by (bit_vector)
    ensures
        spec_newly_pressed(previous, current) & button == button && button != 0 ==> current
            & button == button && previous & button != button,
        current & button == button && previous & button == 0 ==> spec_newly_pressed(
            previous,
            current,
        ) & button == button,
{
}

/// What a demo loop does with one frame's newly-pressed mask: run the frame's
/// work, or tear down and stop.
#[derive(Clone, Copy, Debug, PartialEq, Eq, Structural)]
pub enum LoopDecision {
    /// Keep going: perform this frame's device work.
    RunFrame,
    /// The exit button was pressed: perform teardown and stop; no further
    /// frame touches a device.
    Exit,
}

/// The loop exits exactly when the exit button is in the newly-pressed
/// set.
pub open spec fn spec_exit_requested(keys: u32) -> bool {
    keys & KEY_PLUS == KEY_PLUS
}

/// What the loop decides for a given newly-pressed mask.
pub open spec fn spec_frame_decision(keys: u32) -> LoopDecision {
    if spec_exit_requested(keys) {
        LoopDecision::Exit
    } else {
        LoopDecision::RunFrame
    }
}

/// Decides whether this frame runs or the loop tears down, from the frame's
/// newly-pressed button mask.
pub fn frame_decision(keys: u32) -> (r: LoopDecision)
    ensures
        r == spec_frame_decision(keys),
{
    if keys & KEY_PLUS == KEY_PLUS {
        LoopDecision::Exit
    } else {
        LoopDecision::RunFrame
    }
}

/// Exit-button law: on every frame, the decision is to exit exactly when
/// the exit button is in the newly-pressed set, and a frame that decides to
/// exit never also runs device work — the two outcomes exclude each other,
/// so no frame after the exit signal touches a subsystem.
pub proof fn lemma_exit_button(keys: u32)
    ensures
        spec_frame_decision(keys) == LoopDecision::Exit <==> spec_exit_requested(keys),
        spec_exit_requested(keys) ==> spec_frame_decision(keys) != LoopDecision::RunFrame,
        !spec_exit_requested(keys) ==> spec_frame_decision(keys) == LoopDecision::RunFrame,
{
}

} // verus!
