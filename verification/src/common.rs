//! What the two surfaces share: the keys that give commands.

use vstd::prelude::*;
use crate::aux::AuxToMainInterop;

verus! {

/// The key code of Page Up. It is known and gives no command.
pub const KEY_PREVIOUS: u32 = 33;

/// The key code of Page Down: go on to the next cue.
pub const KEY_NEXT: u32 = 34;

/// The key code of Escape: pause.
pub const KEY_PAUSE: u32 = 27;

/// The key code of the cancel key: pause and forget the learned pace.
pub const KEY_CANCEL: u32 = 66;

/// The key code of the play key.
pub const KEY_PLAY: u32 = 91;

/// The commands that a key gives, in the order they are sent.
pub open spec fn commands_for(keycode: u32) -> Seq<AuxToMainInterop> {
    if keycode == KEY_NEXT {
        seq![AuxToMainInterop::AdvanceDeadline]
    } else if keycode == KEY_PAUSE {
        seq![AuxToMainInterop::SetIsPlaying(false)]
    } else if keycode == KEY_CANCEL {
        seq![AuxToMainInterop::SetIsPlaying(false), AuxToMainInterop::ResetRate]
    } else if keycode == KEY_PLAY {
        seq![AuxToMainInterop::SetIsPlaying(true)]
    } else {
        Seq::empty()
    }
}

/// The commands to send when the key with code `keycode` goes down, in the
/// order they are to be sent. A key that gives no command gives an empty
/// list. Both surfaces handle their keys through this one table.
pub fn event_handler(keycode: u32) -> (commands: Vec<AuxToMainInterop>)
    ensures
        commands@ == commands_for(keycode),
{
    let mut commands: Vec<AuxToMainInterop> = Vec::new();
    if keycode == KEY_NEXT {
        commands.push(AuxToMainInterop::AdvanceDeadline);
    } else if keycode == KEY_PAUSE {
        commands.push(AuxToMainInterop::SetIsPlaying(false));
    } else if keycode == KEY_CANCEL {
        commands.push(AuxToMainInterop::SetIsPlaying(false));
        commands.push(AuxToMainInterop::ResetRate);
    } else if keycode == KEY_PLAY {
        commands.push(AuxToMainInterop::SetIsPlaying(true));
    }
    assert(commands@ =~= commands_for(keycode));
    commands
}

} // verus!
