//! What the volume command asks for, read off its options.

use vstd::prelude::*;

verus! {

/// What is to be done to the volume of a sink.
#[derive(Clone, Copy, PartialEq, Eq, Debug, Structural)]
pub enum VolumeAction {
    /// Raise it by so many percent.
    Increase(u8),
    /// Lower it by so many percent.
    Decrease(u8),
    /// Mute it, or end its mute.
    ToggleMute,
    /// Bring it to so many percent.
    SetTo(u8),
    /// Nothing: no option asks for anything.
    Nothing,
}

/// The action that the options of the volume command ask for. An increase
/// above zero comes first, then a decrease above zero, then the mute toggle,
/// then a percentage to set.
pub open spec fn chosen_action(increase: u8, decrease: u8, toggle_mute: bool, set: Option<u8>) -> VolumeAction {
    if increase > 0 {
        VolumeAction::Increase(increase)
    } else if decrease > 0 {
        VolumeAction::Decrease(decrease)
    } else if toggle_mute {
        VolumeAction::ToggleMute
    } else {
        match set {
            Some(vol) => VolumeAction::SetTo(vol),
            None => VolumeAction::Nothing,
        }
    }
}

/// Reads the action off the options of the volume command.
pub fn volume_action(increase: u8, decrease: u8, toggle_mute: bool, set: Option<u8>) -> (action:
    VolumeAction)
    ensures
        action == chosen_action(increase, decrease, toggle_mute, set),
{
    if increase > 0 {
        VolumeAction::Increase(increase)
    } else if decrease > 0 {
        VolumeAction::Decrease(decrease)
    } else if toggle_mute {
        VolumeAction::ToggleMute
    } else {
        match set {
            Some(vol) => VolumeAction::SetTo(vol),
            None => VolumeAction::Nothing,
        }
    }
}

} // verus!
