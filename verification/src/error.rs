//! Why a launch ended without a record.

use crate::channel::SetupFailure;
use crate::config::ConfigError;
use vstd::prelude::*;

verus! {

/// A failure before the program began to run, or of the supervision itself.
/// Whatever the launch had created is released before the caller sees it.
#[derive(Debug, Clone, Copy, PartialEq, Eq, Structural)]
pub enum SetupError {
    /// A mount destination is not an absolute path inside the isolation root.
    DestinationOutsideRoot,
    /// A mount could not be made.
    MountFailed,
    /// The control group could not be created, or a ceiling not written.
    CgroupFailed,
    /// The child process could not be created.
    SpawnFailed,
    /// The child reported the step at which it could not set itself up or
    /// start the program.
    ChildSetupFailed(SetupFailure),
    /// The notification channel between child and parent broke.
    ChannelBroken,
    /// The child could not be waited for.
    ReapFailed,
    /// The peak memory of the control group could not be read.
    AccountingFailed,
    /// The caller reported something that the action it was given cannot
    /// result in.
    UnexpectedEvent,
}

/// Why a launch could not even start. Nothing was touched yet.
#[derive(Debug, Clone, Copy, PartialEq, Eq, Structural)]
pub enum LaunchError {
    /// The configuration contradicts itself.
    Config(ConfigError),
    /// The configuration asks for something that cannot be set up.
    Setup(SetupError),
}

} // verus!
