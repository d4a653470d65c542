//! From the player's input to the command of the frame.

use crate::float_bits::{is_positive, spec_is_positive, spec_to_u32, to_u32};
use crate::units::{clear_unit_command, UVec2, UnitCommand, COMMAND_MOVE};
use vstd::prelude::*;

verus! {

/// A point in the world. Each coordinate is the bit pattern of a
/// single-precision number.
#[derive(Clone, Copy, Debug, PartialEq, Eq, Hash, Structural)]
pub struct Vec3Bits {
    pub x: u32,
    pub y: u32,
    pub z: u32,
}

/// What input handling sees in one frame.
#[derive(Clone, Copy, Debug, PartialEq, Eq, Hash, Structural)]
pub struct InputSnapshot {
    /// Whether the interface has the pointer's attention.
    pub ui_interacting: bool,
    /// Whether key `1` is held.
    pub key1: bool,
    /// Whether key `2` is held.
    pub key2: bool,
    /// Whether the left shift key is held.
    pub shift_left: bool,
    /// Whether the left control key is held.
    pub control_left: bool,
    /// Whether the left mouse button went down in this frame.
    pub left_just_pressed: bool,
    /// Whether the right mouse button went down in this frame.
    pub right_just_pressed: bool,
    /// Where the ray through the cursor meets the ground, if there is a
    /// cursor and the ray meets the ground in front of the camera.
    pub ground: Option<Vec3Bits>,
}

impl InputSnapshot {
    /// The unit group after this frame's hotkeys: key `2` selects group 1,
    /// else key `1` selects group 0, else the group stays.
    pub open spec fn spec_unit_group(self, unit_group: u32) -> u32 {
        if self.key2 {
            1
        } else if self.key1 {
            0
        } else {
            unit_group
        }
    }

    /// Whether a mouse button went down with no modifier key held.
    pub open spec fn spec_clicked(self) -> bool {
        !(self.shift_left || self.control_left) && (self.right_just_pressed
            || self.left_just_pressed)
    }

    /// The destination that this frame's input orders the units to, if it
    /// orders any: a click that meets the ground at a point whose `x` and `z`
    /// are both greater than zero, each rounded towards zero.
    pub open spec fn spec_move_order(self) -> Option<UVec2> {
        if self.spec_clicked() && self.ground.is_some() && spec_is_positive(self.ground.unwrap().x)
            && spec_is_positive(self.ground.unwrap().z) {
            Some(
                UVec2 {
                    x: spec_to_u32(self.ground.unwrap().x),
                    y: spec_to_u32(self.ground.unwrap().z),
                },
            )
        } else {
            None
        }
    }
}

/// The record after input handling, given the record and the unit group
/// before it. While the interface has the pointer nothing changes. Otherwise
/// the unit group is latched into the record, and a move order, if there is
/// one, sets destination and command code.
pub open spec fn spec_command_units(
    input: InputSnapshot,
    unit_command: UnitCommand,
    unit_group: u32,
) -> UnitCommand {
    if input.ui_interacting {
        unit_command
    } else {
        let latched = UnitCommand { unit_group: input.spec_unit_group(unit_group), ..unit_command };
        match input.spec_move_order() {
            Some(dest) => UnitCommand { dest, command: 1, ..latched },
            None => latched,
        }
    }
}

/// The unit group after input handling.
pub open spec fn spec_unit_group_after(input: InputSnapshot, unit_group: u32) -> u32 {
    if input.ui_interacting {
        unit_group
    } else {
        input.spec_unit_group(unit_group)
    }
}

/// Turns this frame's input into the command of the frame. `unit_group` is
/// the group that the hotkeys selected last; it outlives the frame.
pub fn command_units(input: &InputSnapshot, unit_command: &mut UnitCommand, unit_group: &mut u32)
    ensures
        *final(unit_command) == spec_command_units(*input, *old(unit_command), *old(unit_group)),
        *final(unit_group) == spec_unit_group_after(*input, *old(unit_group)),
{
    if input.ui_interacting {
        return ;
    }
    if input.key1 {
        *unit_group = 0;
    }
    if input.key2 {
        *unit_group = 1;
    }
    unit_command.unit_group = *unit_group;

    let modifier = input.shift_left || input.control_left;

    if let Some(intersection) = input.ground {
        if !modifier && (input.right_just_pressed || input.left_just_pressed) {
            if is_positive(intersection.x) && is_positive(intersection.z) {
                unit_command.dest = UVec2 { x: to_u32(intersection.x), y: to_u32(intersection.z) };
                unit_command.command = COMMAND_MOVE;
            }
        }
    }
}

/// The record that the passes of a frame see: the record is reset when the
/// frame begins, and then input is handled. What the record held before the
/// frame does not enter.
pub open spec fn spec_frame_command(input: InputSnapshot, unit_group: u32) -> UnitCommand {
    spec_command_units(input, UnitCommand::spec_default(), unit_group)
}

/// Begins a frame and handles its input: the record is reset, whatever it
/// held, and then filled from `input`.
pub fn begin_frame(input: &InputSnapshot, unit_command: &mut UnitCommand, unit_group: &mut u32)
    ensures
        *final(unit_command) == spec_frame_command(*input, *old(unit_group)),
        *final(unit_group) == spec_unit_group_after(*input, *old(unit_group)),
{
    clear_unit_command(unit_command);
    command_units(input, unit_command, unit_group);
}

/// A command is used once. The record of a frame holds a command only if
/// this frame's input orders one: without a move order in this frame the
/// command code is zero and the destination is unset, whatever the frames
/// before ordered; with one, code and destination are those of the order.
pub proof fn lemma_command_single_use(input: InputSnapshot, unit_group: u32)
    ensures
        input.ui_interacting || input.spec_move_order().is_none() ==> {
            &&& spec_frame_command(input, unit_group).command == 0
            &&& spec_frame_command(input, unit_group).dest == UnitCommand::spec_default().dest
        },
        !input.ui_interacting && input.spec_move_order().is_some() ==> {
            &&& spec_frame_command(input, unit_group).command == 1
            &&& spec_frame_command(input, unit_group).dest == input.spec_move_order().unwrap()
        },
{
}

} // verus!
