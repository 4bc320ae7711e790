//! The linker-intent payload and the environment of the cargo process.
//!
//! Fat and thin builds name this tool's own executable as the linker; the
//! linker invocation learns what to do from one environment variable that
//! holds a JSON payload, built here.
use vstd::prelude::*;
use crate::error::BuildError;
use crate::path::{render, BuildPath};
use crate::platform::{platform_name, Platform};
use crate::request::{BuildMode, BuildRequest};

verus! {

/// A lowercase hexadecimal digit.
pub open spec fn hex_digit(n: nat) -> char {
    if n == 0 {
        '0'
    } else if n == 1 {
        '1'
    } else if n == 2 {
        '2'
    } else if n == 3 {
        '3'
    } else if n == 4 {
        '4'
    } else if n == 5 {
        '5'
    } else if n == 6 {
        '6'
    } else if n == 7 {
        '7'
    } else if n == 8 {
        '8'
    } else if n == 9 {
        '9'
    } else if n == 10 {
        'a'
    } else if n == 11 {
        'b'
    } else if n == 12 {
        'c'
    } else if n == 13 {
        'd'
    } else if n == 14 {
        'e'
    } else {
        'f'
    }
}

/// How a JSON string writes one character: quote, backslash and the named
/// control characters take a short escape, other characters below U+0020 a
/// `\u00xx` escape, and every other character stands as it is.
pub open spec fn json_escape(c: char) -> Seq<char> {
    let n = c as u32;
    if c == '"' {
        seq!['\\', '"']
    } else if c == '\\' {
        seq!['\\', '\\']
    } else if n == 0x08 {
        seq!['\\', 'b']
    } else if n == 0x09 {
        seq!['\\', 't']
    } else if n == 0x0a {
        seq!['\\', 'n']
    } else if n == 0x0c {
        seq!['\\', 'f']
    } else if n == 0x0d {
        seq!['\\', 'r']
    } else if n < 0x20 {
        seq!['\\', 'u', '0', '0', hex_digit((n / 16) as nat), hex_digit((n % 16) as nat)]
    } else {
        seq![c]
    }
}

/// The characters of `s`, each escaped as a JSON string writes it.
pub open spec fn json_escaped(s: Seq<char>) -> Seq<char>
    decreases s.len(),
{
    if s.len() == 0 {
        Seq::empty()
    } else {
        json_escaped(s.drop_last()) + json_escape(s.last())
    }
}

/// The JSON string literal of `s`: its escaped characters between quotes.
pub open spec fn json_quoted(s: Seq<char>) -> Seq<char> {
    seq!['"'] + json_escaped(s) + seq!['"']
}

/// Relies on `serde_json::to_string` applied to a `str`: the string quoted
/// and escaped by `format_escaped_str`. Serializing a string writes into a
/// `Vec<u8>`, which does not fail.
#[verifier::external_body]
fn json_string(s: &str) -> (r: String)
    ensures
        r@ == json_quoted(s@),
{
    serde_json::to_string(s).unwrap_or_default()
}

pub open spec fn digit_text(d: nat) -> Seq<char> {
    if d == 0 {
        "0"@
    } else if d == 1 {
        "1"@
    } else if d == 2 {
        "2"@
    } else if d == 3 {
        "3"@
    } else if d == 4 {
        "4"@
    } else if d == 5 {
        "5"@
    } else if d == 6 {
        "6"@
    } else if d == 7 {
        "7"@
    } else if d == 8 {
        "8"@
    } else {
        "9"@
    }
}

/// The decimal digits of `n`.
pub open spec fn decimal(n: nat) -> Seq<char>
    decreases n,
{
    if n < 10 {
        digit_text(n)
    } else {
        decimal(n / 10) + digit_text(n % 10)
    }
}

fn digit_str(d: u64) -> (r: &'static str)
    requires
        d < 10,
    ensures
        r@ == digit_text(d as nat),
{
    if d == 0 {
        "0"
    } else if d == 1 {
        "1"
    } else if d == 2 {
        "2"
    } else if d == 3 {
        "3"
    } else if d == 4 {
        "4"
    } else if d == 5 {
        "5"
    } else if d == 6 {
        "6"
    } else if d == 7 {
        "7"
    } else if d == 8 {
        "8"
    } else {
        "9"
    }
}

/// `n` written in decimal.
pub fn decimal_string(n: u64) -> (r: String)
    ensures
        r@ == decimal(n as nat),
    decreases n,
{
    if n < 10 {
        String::from_str(digit_str(n))
    } else {
        decimal_string(n / 10).concat(digit_str(n % 10))
    }
}

/// What the linker invocation is asked to do.
#[derive(Debug)]
pub enum LinkAction {
    /// An ordinary link; `strip` drops dead code.
    BaseLink { platform: Platform, linker: String, incremental_dir: BuildPath, strip: bool },
    /// A patch of an existing binary, `patch_target`, whose entry point is at `main_ptr`.
    ThinLink {
        platform: Platform,
        linker: String,
        incremental_dir: BuildPath,
        main_ptr: u64,
        patch_target: BuildPath,
    },
}

/// The binary a thin build patches, and the address of its entry point.
#[derive(Debug)]
pub struct PatchTarget {
    pub main_ptr: u64,
    pub patch_target: BuildPath,
}

/// The cross toolchain of an Android build, as found on the machine.
#[derive(Debug)]
pub struct AndroidToolchain {
    pub min_sdk_version: u32,
    pub ar_path: String,
    pub target_cc: String,
    pub target_cxx: String,
    pub ndk_root: String,
    pub java_home: Option<String>,
}

/// The name of the variable that carries the linker intent.
pub open spec fn link_env_name() -> Seq<char> {
    "dx_magic_link_file"@
}

/// The linker that each platform's link step calls.
pub open spec fn linker_spec(p: Platform) -> Seq<char> {
    match p {
        Platform::Web => "cc"@,
        Platform::MacOS => "cc"@,
        Platform::Windows => "cc"@,
        Platform::Linux => "cc"@,
        Platform::Ios => "cc"@,
        Platform::Android => "cc"@,
        Platform::Server => "cc"@,
        Platform::Liveview => "cc"@,
    }
}

pub fn linker_for(p: Platform) -> (r: &'static str)
    ensures
        r@ == linker_spec(p),
{
    match p {
        Platform::Web => "cc",
        Platform::MacOS => "cc",
        Platform::Windows => "cc",
        Platform::Linux => "cc",
        Platform::Ios => "cc",
        Platform::Android => "cc",
        Platform::Server => "cc",
        Platform::Liveview => "cc",
    }
}

pub open spec fn base_link_json(
    platform: Platform,
    linker: Seq<char>,
    incremental_dir: Seq<Seq<char>>,
    strip: bool,
) -> Seq<char> {
    "{\"BaseLink\":{\"platform\":"@ + json_quoted(platform_name(platform)) + ",\"linker\":"@
        + json_quoted(linker) + ",\"incremental_dir\":"@ + json_quoted(render(incremental_dir))
        + ",\"strip\":"@ + (if strip {
        "true"@
    } else {
        "false"@
    }) + "}}"@
}

pub open spec fn thin_link_json(
    platform: Platform,
    linker: Seq<char>,
    incremental_dir: Seq<Seq<char>>,
    main_ptr: u64,
    patch_target: Seq<Seq<char>>,
) -> Seq<char> {
    "{\"ThinLink\":{\"platform\":"@ + json_quoted(platform_name(platform)) + ",\"linker\":"@
        + json_quoted(linker) + ",\"incremental_dir\":"@ + json_quoted(render(incremental_dir))
        + ",\"main_ptr\":"@ + decimal(main_ptr as nat) + ",\"patch_target\":"@ + json_quoted(
        render(patch_target),
    ) + "}}"@
}

/// The JSON form of a link action: an object with the variant's name as its
/// one key, and the fields in declaration order under it.
pub open spec fn link_json(a: LinkAction) -> Seq<char> {
    match a {
        LinkAction::BaseLink { platform, linker, incremental_dir, strip } => base_link_json(
            platform,
            linker@,
            incremental_dir@,
            strip,
        ),
        LinkAction::ThinLink { platform, linker, incremental_dir, main_ptr, patch_target } =>
            thin_link_json(platform, linker@, incremental_dir@, main_ptr, patch_target@),
    }
}

impl LinkAction {
    /// The payload of the linker-intent variable.
    pub fn to_json(&self) -> (r: String)
        ensures
            r@ == link_json(*self),
    {
        match self {
            LinkAction::BaseLink { platform, linker, incremental_dir, strip } => {
                let p = json_string(platform.name());
                let l = json_string(linker.as_str());
                let d = json_string(incremental_dir.display().as_str());
                String::from_str("{\"BaseLink\":{\"platform\":").concat(p.as_str()).concat(
                    ",\"linker\":",
                ).concat(l.as_str()).concat(",\"incremental_dir\":").concat(d.as_str()).concat(
                    ",\"strip\":",
                ).concat(
                    if *strip {
                        "true"
                    } else {
                        "false"
                    },
                ).concat("}}")
            },
            LinkAction::ThinLink { platform, linker, incremental_dir, main_ptr, patch_target } => {
                let p = json_string(platform.name());
                let l = json_string(linker.as_str());
                let d = json_string(incremental_dir.display().as_str());
                let m = decimal_string(*main_ptr);
                let t = json_string(patch_target.display().as_str());
                String::from_str("{\"ThinLink\":{\"platform\":").concat(p.as_str()).concat(
                    ",\"linker\":",
                ).concat(l.as_str()).concat(",\"incremental_dir\":").concat(d.as_str()).concat(
                    ",\"main_ptr\":",
                ).concat(m.as_str()).concat(",\"patch_target\":").concat(t.as_str()).concat("}}")
            },
        }
    }
}

pub open spec fn pairs_view(v: Seq<(String, String)>) -> Seq<(Seq<char>, Seq<char>)> {
    v.map_values(|p: (String, String)| (p.0@, p.1@))
}

/// Appends the variable `key` with value `value`.
pub fn push_env(v: &mut Vec<(String, String)>, key: &str, value: &str)
    ensures
        pairs_view(final(v)@) == pairs_view(old(v)@).push((key@, value@)),
{
    let ghost before = v@;
    v.push((String::from_str(key), String::from_str(value)));
    assert(pairs_view(v@) =~= pairs_view(before).push((key@, value@)));
}

/// The compiler flags of an Android build: `base` followed by this tool as
/// the linker and the system libraries the app links.
pub open spec fn android_rust_flags_spec(base: Seq<char>, exe: Seq<char>) -> Seq<char> {
    base + " -Clinker="@ + exe + " -Clink-arg=-landroid"@ + " -Clink-arg=-llog"@
        + " -Clink-arg=-lOpenSLES"@ + " -Clink-arg=-Wl,--export-dynamic"@
}

pub open spec fn android_env_spec(
    t: AndroidToolchain,
    kotlin_dir: Seq<Seq<char>>,
    base_flags: Seq<char>,
    exe: Seq<char>,
) -> Seq<(Seq<char>, Seq<char>)> {
    seq![
        ("ANDROID_NATIVE_API_LEVEL"@, decimal(t.min_sdk_version as nat)),
        ("TARGET_AR"@, t.ar_path@),
        ("TARGET_CC"@, t.target_cc@),
        ("TARGET_CXX"@, t.target_cxx@),
        ("ANDROID_NDK_ROOT"@, t.ndk_root@),
    ] + match t.java_home {
        Some(j) => seq![("JAVA_HOME"@, j@)],
        None => seq![],
    } + seq![
        ("WRY_ANDROID_PACKAGE"@, "dev.dioxus.main"@),
        ("WRY_ANDROID_LIBRARY"@, "dioxusmain"@),
        ("WRY_ANDROID_KOTLIN_FILES_OUT_DIR"@, render(kotlin_dir)),
        ("RUSTFLAGS"@, android_rust_flags_spec(base_flags, exe)),
    ]
}

impl BuildRequest {
    /// The linker-intent payload of this build, where it can be formed.
    pub open spec fn intent_json_spec(&self, patch: Option<PatchTarget>) -> Option<Seq<char>> {
        let p = self.build.platform;
        let dir = self.platform_dir_spec().push("incremental-cache"@);
        match self.mode {
            BuildMode::Thin { .. } => match patch {
                Some(t) => Some(thin_link_json(p, linker_spec(p), dir, t.main_ptr, t.patch_target@)),
                None => None,
            },
            _ => Some(base_link_json(p, linker_spec(p), dir, self.mode is Base)),
        }
    }

    /// The variables after the Android ones: the linker intent, the target
    /// directory where one is set, and for release builds the base path and title.
    pub open spec fn env_tail_spec(&self, intent: Seq<char>) -> Seq<(Seq<char>, Seq<char>)> {
        seq![(link_env_name(), intent)] + (match self.custom_target_dir {
            Some(d) => seq![("CARGO_TARGET_DIR"@, render(d@))],
            None => seq![],
        }) + if self.build.release {
            (match self.krate.base_path {
                Some(b) => seq![("DIOXUS_ASSET_ROOT"@, b@)],
                None => seq![],
            }) + seq![("DIOXUS_APP_TITLE"@, self.krate.title@)]
        } else {
            seq![]
        }
    }

    /// The link action a build of this request asks for, given the patch
    /// target that a thin build needs.
    pub open spec fn link_action_ok(&self, patch: Option<PatchTarget>, a: LinkAction) -> bool {
        match self.mode {
            BuildMode::Thin { .. } => match (patch, a) {
                (
                    Some(t),
                    LinkAction::ThinLink { platform, linker, incremental_dir, main_ptr, patch_target },
                ) => {
                    &&& platform == self.build.platform
                    &&& linker@ == linker_spec(self.build.platform)
                    &&& incremental_dir@ == self.platform_dir_spec().push("incremental-cache"@)
                    &&& main_ptr == t.main_ptr
                    &&& patch_target@ == t.patch_target@
                },
                _ => false,
            },
            _ => match a {
                LinkAction::BaseLink { platform, linker, incremental_dir, strip } => {
                    &&& platform == self.build.platform
                    &&& linker@ == linker_spec(self.build.platform)
                    &&& incremental_dir@ == self.platform_dir_spec().push("incremental-cache"@)
                    &&& strip == (self.mode is Base)
                },
                _ => false,
            },
        }
    }

    /// The link action of this build: an ordinary link for base and fat
    /// builds, stripping only in base mode; a patch of `patch` for thin builds.
    pub fn link_action(&self, patch: Option<PatchTarget>) -> (r: Result<LinkAction, BuildError>)
        ensures
            match r {
                Ok(a) => self.link_action_ok(patch, a),
                Err(e) => self.is_thin() && patch is None && e == BuildError::MissingPatchTarget,
            },
    {
        let platform = self.build.platform;
        let linker = String::from_str(linker_for(platform));
        let incremental_dir = self.incremental_cache_dir();
        match self.mode {
            BuildMode::Thin { .. } => match patch {
                Some(t) => Ok(
                    LinkAction::ThinLink {
                        platform,
                        linker,
                        incremental_dir,
                        main_ptr: t.main_ptr,
                        patch_target: t.patch_target,
                    },
                ),
                None => Err(BuildError::MissingPatchTarget),
            },
            BuildMode::Base => Ok(LinkAction::BaseLink { platform, linker, incremental_dir, strip: true }),
            BuildMode::Fat => Ok(LinkAction::BaseLink { platform, linker, incremental_dir, strip: false }),
        }
    }

    /// The environment of the cargo process. Android builds need the cross
    /// toolchain `android`, and `base_flags` is the `RUSTFLAGS` they extend;
    /// thin builds need the binary they patch.
    pub fn env_vars(
        &self,
        android: &Option<AndroidToolchain>,
        base_flags: &str,
        current_exe: &str,
        patch: Option<PatchTarget>,
    ) -> (r: Result<Vec<(String, String)>, BuildError>)
        ensures
            match r {
                Ok(v) => {
                    &&& !(self.build.platform == Platform::Android && android is None)
                    &&& self.intent_json_spec(patch) is Some
                    &&& pairs_view(v@) == (if self.build.platform == Platform::Android {
                        android_env_spec(
                            android->0,
                            self.kotlin_dir_spec(),
                            base_flags@,
                            current_exe@,
                        )
                    } else {
                        seq![]
                    }) + self.env_tail_spec(self.intent_json_spec(patch)->0)
                },
                Err(e) => if self.build.platform == Platform::Android && android is None {
                    e == BuildError::AndroidToolchainMissing
                } else {
                    self.intent_json_spec(patch) is None && e == BuildError::MissingPatchTarget
                },
            },
    {
        let mut env: Vec<(String, String)> = Vec::new();
        if self.build.platform == Platform::Android {
            match android {
                Some(t) => self.push_android_env(&mut env, t, base_flags, current_exe),
                None => {
                    return Err(BuildError::AndroidToolchainMissing);
                },
            }
        }
        let ghost head = pairs_view(env@);
        let action = match self.link_action(patch) {
            Ok(a) => a,
            Err(e) => {
                return Err(e);
            },
        };
        let intent = action.to_json();
        push_env(&mut env, "dx_magic_link_file", intent.as_str());
        match &self.custom_target_dir {
            Some(d) => {
                let shown = d.display();
                push_env(&mut env, "CARGO_TARGET_DIR", shown.as_str());
            },
            None => {},
        }
        if self.build.release {
            match &self.krate.base_path {
                Some(b) => push_env(&mut env, "DIOXUS_ASSET_ROOT", b.as_str()),
                None => {},
            }
            push_env(&mut env, "DIOXUS_APP_TITLE", self.krate.title.as_str());
        }
        assert(pairs_view(env@) =~= head + self.env_tail_spec(intent@));
        Ok(env)
    }

    fn push_android_env(
        &self,
        env: &mut Vec<(String, String)>,
        t: &AndroidToolchain,
        base_flags: &str,
        current_exe: &str,
    )
        requires
            self.build.platform == Platform::Android,
        ensures
            pairs_view(final(env)@) == pairs_view(old(env)@) + android_env_spec(
                *t,
                self.kotlin_dir_spec(),
                base_flags@,
                current_exe@,
            ),
    {
        let ghost start = pairs_view(env@);
        let level = decimal_string(t.min_sdk_version as u64);
        push_env(env, "ANDROID_NATIVE_API_LEVEL", level.as_str());
        push_env(env, "TARGET_AR", t.ar_path.as_str());
        push_env(env, "TARGET_CC", t.target_cc.as_str());
        push_env(env, "TARGET_CXX", t.target_cxx.as_str());
        push_env(env, "ANDROID_NDK_ROOT", t.ndk_root.as_str());
        match &t.java_home {
            Some(j) => push_env(env, "JAVA_HOME", j.as_str()),
            None => {},
        }
        push_env(env, "WRY_ANDROID_PACKAGE", "dev.dioxus.main");
        push_env(env, "WRY_ANDROID_LIBRARY", "dioxusmain");
        let kotlin = self.wry_android_kotlin_files_out_dir().display();
        push_env(env, "WRY_ANDROID_KOTLIN_FILES_OUT_DIR", kotlin.as_str());
        let flags = self.android_rust_flags(base_flags, current_exe);
        push_env(env, "RUSTFLAGS", flags.as_str());
        assert(pairs_view(env@) =~= start + android_env_spec(
            *t,
            self.kotlin_dir_spec(),
            base_flags@,
            current_exe@,
        ));
    }

    /// The compiler flags for the cargo process: on Android, `base` extended
    /// with this tool as the linker and the system libraries; elsewhere `base`.
    pub fn android_rust_flags(&self, base: &str, current_exe: &str) -> (r: String)
        ensures
            self.build.platform == Platform::Android ==> r@ == android_rust_flags_spec(
                base@,
                current_exe@,
            ),
            self.build.platform != Platform::Android ==> r@ == base@,
    {
        if self.build.platform == Platform::Android {
            String::from_str(base).concat(" -Clinker=").concat(current_exe).concat(
                " -Clink-arg=-landroid",
            ).concat(" -Clink-arg=-llog").concat(" -Clink-arg=-lOpenSLES").concat(
                " -Clink-arg=-Wl,--export-dynamic",
            )
        } else {
            String::from_str(base)
        }
    }
}

} // verus!
