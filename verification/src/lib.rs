//! Cross-compilation helper for Android targets: resolves NDK toolchain
//! paths from a target triple and API level, builds the environment that
//! redirects cargo's compiler and linker selection, and plans the
//! deployment of built binaries onto a device through `adb`.

use vstd::prelude::*;

pub mod deploy;
pub mod resolver;
pub mod text;

verus! {

/// Which step of the device deployment sequence a failure came from.
#[derive(Clone, Copy, PartialEq, Eq, Structural, Debug)]
pub enum Step {
    Push,
    Run,
    Cleanup,
}

/// Everything that can go wrong across toolchain resolution and device
/// deployment.
#[derive(Clone, Copy, PartialEq, Eq, Structural, Debug)]
pub enum RunError {
    /// The debugging bridge binary is not on the execution path.
    BridgeNotFound,
    /// No deployable file was given, or the first one is not a regular file.
    FileNotFound,
    /// The target triple has no separator, so no architecture component.
    MalformedTarget,
    /// None of the recognized SDK root environment variables is set.
    MissingSdkRoot,
    /// A spawned subprocess exited with a non-zero status.
    SubprocessFailed { step: Step },
}

} // verus!
