//! The ways a build fails.
use vstd::prelude::*;

verus! {

/// Why a build could not go on.
#[derive(Clone, Copy, Debug, PartialEq, Eq, Structural)]
pub enum BuildError {
    /// The web platform has no single main executable.
    NoMainExecutable,
    /// The toolchain reported that the build failed.
    CargoFailed,
    /// The event stream ended without naming an executable.
    NoExecutable,
    /// An Android build was asked for without a cross toolchain.
    AndroidToolchainMissing,
    /// A thin build was asked for without the binary it patches.
    MissingPatchTarget,
}

/// The text shown for each error.
pub open spec fn error_text(e: BuildError) -> Seq<char> {
    match e {
        BuildError::NoMainExecutable => "there is no main executable on web"@,
        BuildError::CargoFailed => "Cargo build failed, signaled by the compiler. Toggle tracing mode (press `t`) for more information."@,
        BuildError::NoExecutable => "Build did not return an executable"@,
        BuildError::AndroidToolchainMissing => "Could not autodetect android linker"@,
        BuildError::MissingPatchTarget => "A patch build needs the binary it patches"@,
    }
}

impl BuildError {
    /// A message for the user that names the failing phase.
    pub fn message(&self) -> (r: &'static str)
        ensures
            r@ == error_text(*self),
    {
        match self {
            BuildError::NoMainExecutable => "there is no main executable on web",
            BuildError::CargoFailed => "Cargo build failed, signaled by the compiler. Toggle tracing mode (press `t`) for more information.",
            BuildError::NoExecutable => "Build did not return an executable",
            BuildError::AndroidToolchainMissing => "Could not autodetect android linker",
            BuildError::MissingPatchTarget => "A patch build needs the binary it patches",
        }
    }
}

} // verus!
