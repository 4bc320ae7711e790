//! Target platforms, Android architectures and cargo target kinds.
use vstd::prelude::*;

verus! {

/// The platform an app is built for.
#[derive(Clone, Copy, Debug, PartialEq, Eq, Structural)]
pub enum Platform {
    Web,
    MacOS,
    Windows,
    Linux,
    Ios,
    Android,
    Server,
    Liveview,
}

/// The CPU architecture of an Android build.
#[derive(Clone, Copy, Debug, PartialEq, Eq, Structural)]
pub enum Arch {
    Arm,
    Arm64,
    X86,
    X64,
}

/// The kind of cargo target that holds the app's entry point.
#[derive(Clone, Copy, Debug, PartialEq, Eq, Structural)]
pub enum TargetKind {
    Bin,
    Lib,
    Example,
    Other,
}

pub open spec fn platform_name(p: Platform) -> Seq<char> {
    match p {
        Platform::Web => "web"@,
        Platform::MacOS => "macos"@,
        Platform::Windows => "windows"@,
        Platform::Linux => "linux"@,
        Platform::Ios => "ios"@,
        Platform::Android => "android"@,
        Platform::Server => "server"@,
        Platform::Liveview => "liveview"@,
    }
}

/// The build folder of a platform; the server shares the web folder, so that
/// its output lands next to the web app's `public` directory.
pub open spec fn folder_name(p: Platform) -> Seq<char> {
    match p {
        Platform::Server => "web"@,
        _ => platform_name(p),
    }
}

pub open spec fn android_triple(a: Arch) -> Seq<char> {
    match a {
        Arch::Arm => "armv7-linux-androideabi"@,
        Arch::Arm64 => "aarch64-linux-android"@,
        Arch::X86 => "i686-linux-android"@,
        Arch::X64 => "x86_64-linux-android"@,
    }
}

pub open spec fn jnilib_dir(a: Arch) -> Seq<char> {
    match a {
        Arch::Arm => "armeabi-v7a"@,
        Arch::Arm64 => "arm64-v8a"@,
        Arch::X86 => "x86"@,
        Arch::X64 => "x86_64"@,
    }
}

impl Platform {
    /// The platform's name as the linker-intent payload spells it.
    pub fn name(&self) -> (r: &'static str)
        ensures
            r@ == platform_name(*self),
    {
        match self {
            Platform::Web => "web",
            Platform::MacOS => "macos",
            Platform::Windows => "windows",
            Platform::Linux => "linux",
            Platform::Ios => "ios",
            Platform::Android => "android",
            Platform::Server => "server",
            Platform::Liveview => "liveview",
        }
    }

    pub fn build_folder_name(&self) -> (r: &'static str)
        ensures
            r@ == folder_name(*self),
    {
        match self {
            Platform::Server => "web",
            _ => self.name(),
        }
    }
}

impl Arch {
    pub fn android_target_triplet(&self) -> (r: &'static str)
        ensures
            r@ == android_triple(*self),
    {
        match self {
            Arch::Arm => "armv7-linux-androideabi",
            Arch::Arm64 => "aarch64-linux-android",
            Arch::X86 => "i686-linux-android",
            Arch::X64 => "x86_64-linux-android",
        }
    }

    pub fn android_jnilib(&self) -> (r: &'static str)
        ensures
            r@ == jnilib_dir(*self),
    {
        match self {
            Arch::Arm => "armeabi-v7a",
            Arch::Arm64 => "arm64-v8a",
            Arch::X86 => "x86",
            Arch::X64 => "x86_64",
        }
    }
}

} // verus!
