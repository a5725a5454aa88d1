//! The error kinds a build can fail with.

use vstd::prelude::*;

verus! {

/// The precondition a configuration failed to meet.
#[derive(Debug, Clone, PartialEq)]
pub enum ValidationFault {
    /// The working directory already exists; building into it would
    /// silently overwrite a previous build.
    WorkdirExists,
    /// The declared content base directory does not exist.
    BaseContentMissing,
    /// A local package directory is declared but does not exist.
    LocalPackageDirMissing,
}

/// A build failure. Every failing path of the build reports exactly one
/// of these kinds.
#[derive(Debug, Clone, PartialEq)]
pub enum BuildError {
    /// A precondition on the configuration was not met.
    ValidationError(ValidationFault),
    /// A required external program is not resolvable.
    ToolMissingError { tool: String },
    /// A phase was invoked against the wrong predecessor state.
    StateError,
    /// The loop attach succeeded but returned no usable device path.
    LoopDeviceError,
    /// An external process exited non-zero or failed to spawn. The exit
    /// code is absent when the process could not be spawned at all.
    CommandExecutionError { program: String, exit_code: Option<i32>, output: String },
}

} // verus!
