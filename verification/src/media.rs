//! Pausing and resuming the system's "now playing" media around a recording.
//! The commands go through the private MediaRemote framework; pause is sent
//! when recording begins and play when it ends. With nothing playing, the
//! framework ignores both.

use vstd::prelude::*;

verus! {

/// The framework that carries the commands.
pub const FRAMEWORK_PATH: &'static str = "/System/Library/PrivateFrameworks/MediaRemote.framework/MediaRemote";

/// The symbol that sends a command.
pub const SEND_COMMAND_SYMBOL: &'static str = "MRMediaRemoteSendCommand";

/// MediaRemote's command code for play.
pub const MR_CMD_PLAY: i32 = 0;

/// MediaRemote's command code for pause.
pub const MR_CMD_PAUSE: i32 = 1;

/// The command that pauses what is playing.
pub fn pause() -> (r: i32)
    ensures
        r == MR_CMD_PAUSE,
{
    MR_CMD_PAUSE
}

/// The command that resumes what was paused.
pub fn play() -> (r: i32)
    ensures
        r == MR_CMD_PLAY,
{
    MR_CMD_PLAY
}

} // verus!
