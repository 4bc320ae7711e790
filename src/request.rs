//! A build request: its configuration, the output layout it resolves to, and
//! the arguments it hands to cargo.
use vstd::prelude::*;
use crate::error::BuildError;
use crate::features::{dedup_strings, extend_strings, join_strings, join_words, unique};
use crate::path::{copy_strings, with_ext, BuildPath};
use crate::platform::{android_triple, folder_name, jnilib_dir, Arch, Platform, TargetKind};

verus! {

/// How a build goes about compiling and linking. A base build is an ordinary
/// one; fat and thin builds together make binary patching possible.
#[derive(Debug)]
pub enum BuildMode {
    /// An ordinary `cargo rustc` build.
    Base,
    /// A build linked through this tool, with dead code kept, so that later
    /// patches have symbols to attach to.
    Fat,
    /// A patch build that replays compiler invocations captured by an
    /// earlier fat build.
    Thin { direct_rustc: Vec<Vec<String>> },
}

/// What one cargo run produced: the compiler invocations it reported and the
/// executable it linked.
#[derive(Debug)]
pub struct CargoBuildResult {
    pub rustc_args: Vec<Vec<String>>,
    pub exe: String,
}

/// The build options a user gave.
#[derive(Debug)]
pub struct BuildArgs {
    pub platform: Platform,
    pub release: bool,
    pub profile: Option<String>,
    pub server_profile: String,
    pub fullstack: bool,
    pub force_sequential: bool,
    /// A target triple to use where the platform does not fix one.
    pub target: Option<String>,
    /// On iOS: a device rather than the simulator.
    pub device: Option<bool>,
    pub arch: Arch,
    pub package: Option<String>,
    pub features: Vec<String>,
    pub client_features: Vec<String>,
    pub server_features: Vec<String>,
    pub no_default_features: bool,
    /// Extra arguments handed to cargo as they are.
    pub cargo_args: Vec<String>,
    pub experimental_wasm_split: bool,
}

/// What the build needs to know of the crate it compiles.
#[derive(Debug)]
pub struct CrateInfo {
    pub executable_name: String,
    pub bundled_app_name: String,
    pub executable_type: TargetKind,
    /// The package's `default` feature list, where it declares one.
    pub default_features: Option<Vec<String>>,
    /// The directory under which each profile and platform gets its own folder.
    pub out_dir: BuildPath,
    /// The web base path baked into release builds, where one is configured.
    pub base_path: Option<String>,
    pub title: String,
}

/// One build of one crate for one platform.
#[derive(Debug)]
pub struct BuildRequest {
    pub krate: CrateInfo,
    pub build: BuildArgs,
    pub custom_target_dir: Option<BuildPath>,
    pub mode: BuildMode,
}

pub open spec fn opt_view(o: Option<String>) -> Option<Seq<char>> {
    match o {
        Some(s) => Some(s@),
        None => None,
    }
}

pub open spec fn kind_flag(k: TargetKind) -> Seq<Seq<char>> {
    match k {
        TargetKind::Bin => seq!["--bin"@],
        TargetKind::Lib => seq!["--lib"@],
        TargetKind::Example => seq!["--example"@],
        TargetKind::Other => seq![],
    }
}

/// Appends `s` to `v`.
pub fn push_str(v: &mut Vec<String>, s: &str)
    ensures
        final(v).deep_view() == old(v).deep_view().push(s@),
{
    let ghost before = v.deep_view();
    v.push(String::from_str(s));
    assert(v.deep_view() =~= before.push(s@));
}

/// Total of the entries of `s`.
pub open spec fn seq_sum(s: Seq<usize>) -> int
    decreases s.len(),
{
    if s.len() == 0 {
        0
    } else {
        seq_sum(s.drop_last()) + s.last()
    }
}

/// The total of `s`, or `usize::MAX` where it does not fit.
pub open spec fn capped_sum(s: Seq<usize>) -> int {
    if seq_sum(s) <= usize::MAX {
        seq_sum(s)
    } else {
        usize::MAX as int
    }
}

/// Estimates the compilation units of a build from the number of cargo targets
/// of each package in its dependency graph: the total divided by 3.5, rounded
/// down. A total past `usize::MAX` counts as `usize::MAX`.
pub fn estimate_units_from_targets(target_counts: &Vec<usize>) -> (r: usize)
    ensures
        r == (2 * capped_sum(target_counts@)) / 7,
{
    let mut total: usize = 0;
    let mut i: usize = 0;
    while i < target_counts.len()
        invariant
            i <= target_counts@.len(),
            total == capped_sum(target_counts@.subrange(0, i as int)),
        decreases target_counts.len() - i,
    {
        assert(target_counts@.subrange(0, i + 1).drop_last() =~= target_counts@.subrange(
            0,
            i as int,
        ));
        let c = target_counts[i];
        if total > usize::MAX - c {
            total = usize::MAX;
        } else {
            total = total + c;
        }
        i = i + 1;
    }
    assert(target_counts@.subrange(0, i as int) =~= target_counts@);
    let q = total / 7;
    let m = total % 7;
    assert(q * 2 + (m * 2) / 7 == (2 * total) / 7) by (nonlinear_arith)
        requires
            q == total / 7,
            m == total % 7,
    ;
    assert(q * 2 <= total) by (nonlinear_arith)
        requires
            q == total / 7,
    ;
    q * 2 + (m * 2) / 7
}

/// The unit count for the progress display: the exact count where the unit
/// graph gave one, else the estimate from the packages' targets.
pub fn get_unit_count_estimate(exact: Option<usize>, target_counts: &Vec<usize>) -> (r: usize)
    ensures
        r == match exact {
            Some(n) => n as int,
            None => (2 * capped_sum(target_counts@)) / 7,
        },
{
    match exact {
        Some(n) => n,
        None => estimate_units_from_targets(target_counts),
    }
}

pub fn copy_opt_string(o: &Option<String>) -> (r: Option<String>)
    ensures
        opt_view(r) == opt_view(*o),
{
    match o {
        Some(s) => Some(s.clone()),
        None => None,
    }
}

/// `a` and `b` hold the same options, the platform aside.
pub open spec fn args_agree(a: BuildArgs, b: BuildArgs) -> bool {
    &&& a.release == b.release
    &&& opt_view(a.profile) == opt_view(b.profile)
    &&& a.server_profile@ == b.server_profile@
    &&& a.fullstack == b.fullstack
    &&& a.force_sequential == b.force_sequential
    &&& opt_view(a.target) == opt_view(b.target)
    &&& a.device == b.device
    &&& a.arch == b.arch
    &&& opt_view(a.package) == opt_view(b.package)
    &&& a.features.deep_view() == b.features.deep_view()
    &&& a.client_features.deep_view() == b.client_features.deep_view()
    &&& a.server_features.deep_view() == b.server_features.deep_view()
    &&& a.no_default_features == b.no_default_features
    &&& a.cargo_args.deep_view() == b.cargo_args.deep_view()
    &&& a.experimental_wasm_split == b.experimental_wasm_split
}

/// `a` and `b` describe the same crate.
pub open spec fn crates_agree(a: CrateInfo, b: CrateInfo) -> bool {
    &&& a.executable_name@ == b.executable_name@
    &&& a.bundled_app_name@ == b.bundled_app_name@
    &&& a.executable_type == b.executable_type
    &&& match (a.default_features, b.default_features) {
        (Some(x), Some(y)) => x.deep_view() == y.deep_view(),
        (None, None) => true,
        _ => false,
    }
    &&& a.out_dir@ == b.out_dir@
    &&& opt_view(a.base_path) == opt_view(b.base_path)
    &&& a.title@ == b.title@
}

/// `a` and `b` are the same build mode.
pub open spec fn modes_agree(a: BuildMode, b: BuildMode) -> bool {
    match (a, b) {
        (BuildMode::Base, BuildMode::Base) => true,
        (BuildMode::Fat, BuildMode::Fat) => true,
        (BuildMode::Thin { direct_rustc: x }, BuildMode::Thin { direct_rustc: y }) => x.deep_view()
            == y.deep_view(),
        _ => false,
    }
}

impl BuildArgs {
    /// These options with the platform set to `platform`.
    pub fn with_platform(&self, platform: Platform) -> (r: BuildArgs)
        ensures
            r.platform == platform,
            args_agree(r, *self),
    {
        BuildArgs {
            platform,
            release: self.release,
            profile: copy_opt_string(&self.profile),
            server_profile: self.server_profile.clone(),
            fullstack: self.fullstack,
            force_sequential: self.force_sequential,
            target: copy_opt_string(&self.target),
            device: self.device,
            arch: self.arch,
            package: copy_opt_string(&self.package),
            features: copy_strings(&self.features),
            client_features: copy_strings(&self.client_features),
            server_features: copy_strings(&self.server_features),
            no_default_features: self.no_default_features,
            cargo_args: copy_strings(&self.cargo_args),
            experimental_wasm_split: self.experimental_wasm_split,
        }
    }
}

impl CrateInfo {
    pub fn duplicate(&self) -> (r: CrateInfo)
        ensures
            crates_agree(r, *self),
    {
        let default_features = match &self.default_features {
            Some(d) => Some(copy_strings(d)),
            None => None,
        };
        CrateInfo {
            executable_name: self.executable_name.clone(),
            bundled_app_name: self.bundled_app_name.clone(),
            executable_type: self.executable_type,
            default_features,
            out_dir: self.out_dir.duplicate(),
            base_path: copy_opt_string(&self.base_path),
            title: self.title.clone(),
        }
    }
}

impl BuildMode {
    pub fn duplicate(&self) -> (r: BuildMode)
        ensures
            modes_agree(r, *self),
    {
        match self {
            BuildMode::Base => BuildMode::Base,
            BuildMode::Fat => BuildMode::Fat,
            BuildMode::Thin { direct_rustc } => {
                let mut copy: Vec<Vec<String>> = Vec::new();
                let mut i: usize = 0;
                while i < direct_rustc.len()
                    invariant
                        i <= direct_rustc@.len(),
                        copy@.len() == i,
                        forall|k: int| 0 <= k < i ==> #[trigger] copy@[k].deep_view()
                            == direct_rustc@[k].deep_view(),
                    decreases direct_rustc.len() - i,
                {
                    copy.push(copy_strings(&direct_rustc[i]));
                    i = i + 1;
                }
                assert(copy.deep_view() =~= direct_rustc.deep_view());
                BuildMode::Thin { direct_rustc: copy }
            },
        }
    }
}

pub open spec fn paths_view(v: Seq<BuildPath>) -> Seq<Seq<Seq<char>>> {
    v.map_values(|p: BuildPath| p@)
}

/// Appends `p` to `v`.
pub fn push_path(v: &mut Vec<BuildPath>, p: BuildPath)
    ensures
        paths_view(final(v)@) == paths_view(old(v)@).push(p@),
{
    let ghost before = v@;
    v.push(p);
    assert(paths_view(v@) =~= paths_view(before).push(p@));
}

impl BuildRequest {
    pub open spec fn platform_dir_spec(&self) -> Seq<Seq<char>> {
        self.krate.out_dir@.push(
            if self.build.release {
                "release"@
            } else {
                "debug"@
            },
        ).push(folder_name(self.build.platform))
    }

    pub open spec fn root_dir_spec(&self) -> Seq<Seq<char>> {
        let pd = self.platform_dir_spec();
        match self.build.platform {
            Platform::Web => pd.push("public"@),
            Platform::Server => pd,
            Platform::MacOS | Platform::Ios => pd.push(self.krate.bundled_app_name@ + ".app"@),
            _ => pd.push("app"@),
        }
    }

    pub open spec fn exe_dir_spec(&self) -> Seq<Seq<char>> {
        let root = self.root_dir_spec();
        match self.build.platform {
            Platform::MacOS => root.push("Contents"@).push("MacOS"@),
            Platform::Web => root.push("wasm"@),
            Platform::Android => root.push("app"@).push("src"@).push("main"@).push(
                "jniLibs"@,
            ).push(jnilib_dir(self.build.arch)),
            _ => root,
        }
    }

    pub open spec fn asset_dir_spec(&self) -> Seq<Seq<char>> {
        let root = self.root_dir_spec();
        match self.build.platform {
            Platform::MacOS => root.push("Contents"@).push("Resources"@).push("assets"@),
            Platform::Android => root.push("app"@).push("src"@).push("main"@).push("assets"@),
            _ => root.push("assets"@),
        }
    }

    pub open spec fn kotlin_dir_spec(&self) -> Seq<Seq<char>> {
        self.root_dir_spec().push("app"@).push("src"@).push("main"@).push("kotlin"@).push(
            "dev"@,
        ).push("dioxus"@).push("main"@)
    }

    pub open spec fn target_features_spec(&self) -> Seq<Seq<char>> {
        self.build.features.deep_view() + if self.build.platform == Platform::Server {
            self.build.server_features.deep_view()
        } else {
            self.build.client_features.deep_view()
        }
    }

    pub open spec fn default_features_spec(&self) -> Seq<Seq<char>> {
        if self.build.no_default_features {
            seq![]
        } else {
            match self.krate.default_features {
                Some(d) => d.deep_view(),
                None => seq![],
            }
        }
    }

    pub open spec fn all_target_features_spec(&self) -> Seq<Seq<char>> {
        unique(self.target_features_spec() + self.default_features_spec())
    }

    /// The main executable's file name; the web has none.
    pub open spec fn exe_name_spec(&self) -> Option<Seq<char>> {
        match self.build.platform {
            Platform::Web => None,
            Platform::Android => Some("libdioxusmain.so"@),
            Platform::Windows => Some(self.krate.executable_name@ + ".exe"@),
            _ => Some(self.krate.executable_name@),
        }
    }

    pub open spec fn profile_args_spec(&self) -> Seq<Seq<char>> {
        if self.build.platform == Platform::Server {
            seq![
                "--profile"@,
                if self.build.release {
                    "release"@
                } else {
                    self.build.server_profile@
                },
            ]
        } else if self.build.release {
            seq!["--profile"@, "release"@]
        } else {
            match self.build.profile {
                Some(p) => seq!["--profile"@, p@],
                None => seq![],
            }
        }
    }

    /// The triple passed with `--target`; desktop platforms build for the host.
    pub open spec fn target_triple_spec(&self) -> Option<Seq<char>> {
        match self.build.platform {
            Platform::Server => None,
            Platform::Web => Some("wasm32-unknown-unknown"@),
            Platform::Ios => if self.build.device == Some(true) {
                Some("aarch64-apple-ios"@)
            } else {
                Some("aarch64-apple-ios-sim"@)
            },
            Platform::Android => Some(android_triple(self.build.arch)),
            _ => opt_view(self.build.target),
        }
    }

    pub open spec fn target_args_spec(&self) -> Seq<Seq<char>> {
        match self.target_triple_spec() {
            Some(t) => seq!["--target"@, t],
            None => seq![],
        }
    }

    pub open spec fn feature_args_spec(&self) -> Seq<Seq<char>> {
        (if self.build.no_default_features {
            seq!["--no-default-features"@]
        } else {
            seq![]
        }) + (if self.all_target_features_spec().len() > 0 {
            seq!["--features"@, join_words(self.all_target_features_spec(), " "@)]
        } else {
            seq![]
        }) + match self.build.package {
            Some(p) => seq!["-p"@, p@],
            None => seq![],
        }
    }

    pub open spec fn rustc_flags_spec(&self, linker_exe: Seq<char>) -> Seq<Seq<char>> {
        (if self.build.platform == Platform::Web && self.build.experimental_wasm_split {
            seq!["-Clink-args=--emit-relocs"@]
        } else {
            seq![]
        }) + (if self.mode is Base {
            seq![]
        } else {
            seq!["-Clinker="@ + linker_exe]
        })
    }

    /// The cargo arguments of a build whose linker, in fat and thin mode, is
    /// the executable at `linker_exe`.
    pub open spec fn build_arguments_spec(&self, linker_exe: Seq<char>) -> Seq<Seq<char>> {
        self.profile_args_spec() + self.target_args_spec() + seq!["--verbose"@]
            + self.feature_args_spec() + self.build.cargo_args.deep_view() + kind_flag(
            self.krate.executable_type,
        ) + seq![self.krate.executable_name@, "--"@] + self.rustc_flags_spec(linker_exe)
    }

    pub open spec fn is_thin(&self) -> bool {
        self.mode is Thin
    }

    pub fn new(krate: CrateInfo, build: BuildArgs, mode: BuildMode) -> (r: BuildRequest)
        ensures
            r.krate == krate,
            r.build == build,
            r.mode == mode,
            r.custom_target_dir is None,
    {
        BuildRequest { build, krate, mode, custom_target_dir: None }
    }

    /// The folder for this request's profile and platform.
    pub fn platform_dir(&self) -> (r: BuildPath)
        ensures
            r@ == self.platform_dir_spec(),
    {
        let profile = if self.build.release {
            "release"
        } else {
            "debug"
        };
        self.krate.out_dir.join(profile).join(self.build.platform.build_folder_name())
    }

    /// The working directory of the build, and the root of what gets bundled.
    pub fn root_dir(&self) -> (r: BuildPath)
        ensures
            r@ == self.root_dir_spec(),
    {
        let pd = self.platform_dir();
        match self.build.platform {
            Platform::Web => pd.join("public"),
            Platform::Server => pd,
            Platform::MacOS | Platform::Ios => {
                let name = String::from_str(self.krate.bundled_app_name.as_str()).concat(".app");
                pd.join(name.as_str())
            },
            _ => pd.join("app"),
        }
    }

    /// The directory that receives the main executable.
    pub fn exe_dir(&self) -> (r: BuildPath)
        ensures
            r@ == self.exe_dir_spec(),
    {
        let root = self.root_dir();
        match self.build.platform {
            Platform::MacOS => root.join("Contents").join("MacOS"),
            Platform::Web => root.join("wasm"),
            Platform::Android => root.join("app").join("src").join("main").join("jniLibs").join(
                self.build.arch.android_jnilib(),
            ),
            _ => root,
        }
    }

    /// The directory that receives the app's assets.
    pub fn asset_dir(&self) -> (r: BuildPath)
        ensures
            r@ == self.asset_dir_spec(),
    {
        let root = self.root_dir();
        match self.build.platform {
            Platform::MacOS => root.join("Contents").join("Resources").join("assets"),
            Platform::Android => root.join("app").join("src").join("main").join("assets"),
            _ => root.join("assets"),
        }
    }

    pub fn incremental_cache_dir(&self) -> (r: BuildPath)
        ensures
            r@ == self.platform_dir_spec().push("incremental-cache"@),
    {
        self.platform_dir().join("incremental-cache")
    }

    /// The folder wasm-bindgen writes its output to.
    pub fn wasm_bindgen_out_dir(&self) -> (r: BuildPath)
        ensures
            r@ == self.root_dir_spec().push("wasm"@),
    {
        self.root_dir().join("wasm")
    }

    /// The JavaScript glue that wasm-bindgen writes.
    pub fn wasm_bindgen_js_output_file(&self) -> (r: BuildPath)
        ensures
            r@ == self.root_dir_spec().push("wasm"@).push(
                with_ext(self.krate.executable_name@, "js"@),
            ),
    {
        self.wasm_bindgen_out_dir().join(self.krate.executable_name.as_str()).with_extension("js")
    }

    /// The wasm module that wasm-bindgen writes.
    pub fn wasm_bindgen_wasm_output_file(&self) -> (r: BuildPath)
        ensures
            r@ == self.root_dir_spec().push("wasm"@).push(
                with_ext(self.krate.executable_name@ + "_bg"@, "wasm"@),
            ),
    {
        let name = String::from_str(self.krate.executable_name.as_str()).concat("_bg");
        self.wasm_bindgen_out_dir().join(name.as_str()).with_extension("wasm")
    }

    /// The file that records which version of the tool optimized the assets.
    pub fn asset_optimizer_version_file(&self) -> (r: BuildPath)
        ensures
            r@ == self.platform_dir_spec().push(".cli-version"@),
    {
        self.platform_dir().join(".cli-version")
    }

    /// Where the Android web-view bridge writes its Kotlin sources.
    pub fn wry_android_kotlin_files_out_dir(&self) -> (r: BuildPath)
        ensures
            r@ == self.kotlin_dir_spec(),
    {
        self.root_dir().join("app").join("src").join("main").join("kotlin").join("dev").join(
            "dioxus",
        ).join("main")
    }

    /// The file name of the main executable. The web has none, and is refused.
    pub fn platform_exe_name(&self) -> (r: Result<String, BuildError>)
        ensures
            match r {
                Ok(s) => self.exe_name_spec() == Some(s@),
                Err(e) => self.exe_name_spec() is None && e == BuildError::NoMainExecutable,
            },
    {
        let name = self.krate.executable_name.as_str();
        match self.build.platform {
            Platform::Web => Err(BuildError::NoMainExecutable),
            Platform::Android => Ok(String::from_str("libdioxusmain.so")),
            Platform::Windows => Ok(String::from_str(name).concat(".exe")),
            _ => Ok(String::from_str(name)),
        }
    }

    pub fn is_patch(&self) -> (r: bool)
        ensures
            r == self.is_thin(),
    {
        match self.mode {
            BuildMode::Thin { .. } => true,
            _ => false,
        }
    }

    /// Appends the profile and target arguments.
    fn push_profile_and_target(&self, args: &mut Vec<String>)
        ensures
            final(args).deep_view() == old(args).deep_view() + self.profile_args_spec()
                + self.target_args_spec(),
    {
        let ghost start = args.deep_view();
        if self.build.platform == Platform::Server {
            push_str(args, "--profile");
            if self.build.release {
                push_str(args, "release");
            } else {
                push_str(args, self.build.server_profile.as_str());
            }
        } else if self.build.release {
            push_str(args, "--profile");
            push_str(args, "release");
        } else {
            match &self.build.profile {
                Some(p) => {
                    push_str(args, "--profile");
                    push_str(args, p.as_str());
                },
                None => {},
            }
        }
        assert(args.deep_view() =~= start + self.profile_args_spec());
        let ghost mid = args.deep_view();
        let triple: Option<&str> = match self.build.platform {
            Platform::Server => None,
            Platform::Web => Some("wasm32-unknown-unknown"),
            Platform::Ios => match self.build.device {
                Some(true) => Some("aarch64-apple-ios"),
                _ => Some("aarch64-apple-ios-sim"),
            },
            Platform::Android => Some(self.build.arch.android_target_triplet()),
            _ => match &self.build.target {
                Some(t) => Some(t.as_str()),
                None => None,
            },
        };
        match triple {
            Some(t) => {
                push_str(args, "--target");
                push_str(args, t);
            },
            None => {},
        }
        assert(args.deep_view() =~= mid + self.target_args_spec());
    }

    /// Appends the feature and package arguments.
    fn push_features(&self, args: &mut Vec<String>)
        ensures
            final(args).deep_view() == old(args).deep_view() + self.feature_args_spec(),
    {
        let ghost start = args.deep_view();
        if self.build.no_default_features {
            push_str(args, "--no-default-features");
        }
        let features = self.all_target_features();
        if features.len() > 0 {
            push_str(args, "--features");
            let joined = join_strings(&features, " ");
            push_str(args, joined.as_str());
        }
        match &self.build.package {
            Some(p) => {
                push_str(args, "-p");
                push_str(args, p.as_str());
            },
            None => {},
        }
        assert(args.deep_view() =~= start + self.feature_args_spec());
    }

    /// The arguments for `cargo rustc`, after the subcommand and the message
    /// format. In fat and thin mode the executable at `linker_exe` is the linker.
    pub fn build_arguments(&self, linker_exe: &str) -> (r: Vec<String>)
        ensures
            r.deep_view() == self.build_arguments_spec(linker_exe@),
    {
        let mut args: Vec<String> = Vec::new();
        self.push_profile_and_target(&mut args);
        push_str(&mut args, "--verbose");
        self.push_features(&mut args);
        extend_strings(&mut args, &self.build.cargo_args);
        let ghost before_kind = args.deep_view();
        match self.krate.executable_type {
            TargetKind::Bin => push_str(&mut args, "--bin"),
            TargetKind::Lib => push_str(&mut args, "--lib"),
            TargetKind::Example => push_str(&mut args, "--example"),
            TargetKind::Other => {},
        }
        assert(args.deep_view() =~= before_kind + kind_flag(self.krate.executable_type));
        push_str(&mut args, self.krate.executable_name.as_str());
        push_str(&mut args, "--");
        let ghost before_flags = args.deep_view();
        if self.build.platform == Platform::Web && self.build.experimental_wasm_split {
            push_str(&mut args, "-Clink-args=--emit-relocs");
        }
        match self.mode {
            BuildMode::Base => {},
            _ => {
                let flag = String::from_str("-Clinker=").concat(linker_exe);
                push_str(&mut args, flag.as_str());
            },
        }
        assert(args.deep_view() =~= before_flags + self.rustc_flags_spec(linker_exe@));
        assert(args.deep_view() =~= self.build_arguments_spec(linker_exe@));
        args
    }

    /// The full argument list of the `cargo` invocation that builds the app.
    pub fn command_arguments(&self, linker_exe: &str) -> (r: Vec<String>)
        ensures
            r.deep_view() == seq!["rustc"@, "--message-format"@, "json-diagnostic-rendered-ansi"@]
                + self.build_arguments_spec(linker_exe@),
    {
        let mut args: Vec<String> = Vec::new();
        push_str(&mut args, "rustc");
        push_str(&mut args, "--message-format");
        push_str(&mut args, "json-diagnostic-rendered-ansi");
        let rest = self.build_arguments(linker_exe);
        extend_strings(&mut args, &rest);
        args
    }

    /// The argument list of the nightly `cargo` invocation that reports the unit graph.
    pub fn unit_graph_arguments(&self, linker_exe: &str) -> (r: Vec<String>)
        ensures
            r.deep_view() == seq![
                "+nightly"@,
                "build"@,
                "--unit-graph"@,
                "-Z"@,
                "unstable-options"@,
            ] + self.build_arguments_spec(linker_exe@),
    {
        let mut args: Vec<String> = Vec::new();
        push_str(&mut args, "+nightly");
        push_str(&mut args, "build");
        push_str(&mut args, "--unit-graph");
        push_str(&mut args, "-Z");
        push_str(&mut args, "unstable-options");
        let rest = self.build_arguments(linker_exe);
        extend_strings(&mut args, &rest);
        args
    }

    /// The build of the server that goes with this app: the same request with
    /// the platform set to the server, where the app is fullstack.
    pub fn build_server_request(&self) -> (r: Option<BuildRequest>)
        ensures
            match r {
                Some(s) => {
                    &&& self.build.fullstack
                    &&& s.build.platform == Platform::Server
                    &&& args_agree(s.build, self.build)
                    &&& crates_agree(s.krate, self.krate)
                    &&& modes_agree(s.mode, self.mode)
                    &&& match (s.custom_target_dir, self.custom_target_dir) {
                        (Some(x), Some(y)) => x@ == y@,
                        (None, None) => true,
                        _ => false,
                    }
                },
                None => !self.build.fullstack,
            },
    {
        if !self.build.fullstack {
            return None;
        }
        let custom_target_dir = match &self.custom_target_dir {
            Some(d) => Some(d.duplicate()),
            None => None,
        };
        Some(
            BuildRequest {
                krate: self.krate.duplicate(),
                build: self.build.with_platform(Platform::Server),
                custom_target_dir,
                mode: self.mode.duplicate(),
            },
        )
    }

    /// The directories of the Android project that wraps the app.
    pub open spec fn android_dirs_spec(&self) -> Seq<Seq<Seq<char>>> {
        let root = self.root_dir_spec();
        let main = root.push("app"@).push("src"@).push("main"@);
        let res = main.push("res"@);
        seq![
            root.push("gradle"@).push("wrapper"@),
            root.push("app"@),
            main,
            main.push("kotlin"@),
            main.push("jniLibs"@),
            main.push("assets"@),
            self.kotlin_dir_spec(),
            res,
            res.push("values"@),
            res.push("drawable"@),
            res.push("drawable-v24"@),
            res.push("mipmap-anydpi-v26"@),
            res.push("mipmap-hdpi"@),
            res.push("mipmap-mdpi"@),
            res.push("mipmap-xhdpi"@),
            res.push("mipmap-xxhdpi"@),
            res.push("mipmap-xxxhdpi"@),
        ]
    }

    /// The directories that preparing the build creates, in order: the root,
    /// executable and asset directories, then on Android the project around them.
    pub open spec fn build_dirs_spec(&self) -> Seq<Seq<Seq<char>>> {
        seq![self.root_dir_spec(), self.exe_dir_spec(), self.asset_dir_spec()] + if self.build.platform
            == Platform::Android {
            self.android_dirs_spec()
        } else {
            seq![]
        }
    }

    /// The directories to create before a build; the executable directory is
    /// emptied first.
    pub fn build_dirs(&self) -> (r: Vec<BuildPath>)
        ensures
            paths_view(r@) == self.build_dirs_spec(),
    {
        let mut dirs: Vec<BuildPath> = Vec::new();
        push_path(&mut dirs, self.root_dir());
        push_path(&mut dirs, self.exe_dir());
        push_path(&mut dirs, self.asset_dir());
        if self.build.platform == Platform::Android {
            let root = self.root_dir();
            let main = root.join("app").join("src").join("main");
            let res = main.join("res");
            push_path(&mut dirs, root.join("gradle").join("wrapper"));
            push_path(&mut dirs, root.join("app"));
            push_path(&mut dirs, main.duplicate());
            push_path(&mut dirs, main.join("kotlin"));
            push_path(&mut dirs, main.join("jniLibs"));
            push_path(&mut dirs, main.join("assets"));
            push_path(&mut dirs, self.wry_android_kotlin_files_out_dir());
            push_path(&mut dirs, res.duplicate());
            push_path(&mut dirs, res.join("values"));
            push_path(&mut dirs, res.join("drawable"));
            push_path(&mut dirs, res.join("drawable-v24"));
            push_path(&mut dirs, res.join("mipmap-anydpi-v26"));
            push_path(&mut dirs, res.join("mipmap-hdpi"));
            push_path(&mut dirs, res.join("mipmap-mdpi"));
            push_path(&mut dirs, res.join("mipmap-xhdpi"));
            push_path(&mut dirs, res.join("mipmap-xxhdpi"));
            push_path(&mut dirs, res.join("mipmap-xxxhdpi"));
        }
        assert(paths_view(dirs@) =~= self.build_dirs_spec());
        dirs
    }

    /// Whether the build needs a unit estimate: a thin build compiles one unit.
    pub fn needs_unit_estimate(&self) -> (r: bool)
        ensures
            r == !self.is_thin(),
    {
        !self.is_patch()
    }

    /// The number of units the progress display expects. A thin build
    /// compiles only the final unit, whatever the estimate says.
    pub fn expected_units(&self, estimate: usize) -> (r: usize)
        ensures
            self.is_thin() ==> r == 1,
            !self.is_thin() ==> r == estimate,
    {
        if self.is_patch() {
            1
        } else {
            estimate
        }
    }

    /// The explicit features plus the server's or the client's, by platform.
    pub fn target_features(&self) -> (r: Vec<String>)
        ensures
            r.deep_view() == self.target_features_spec(),
    {
        let mut features: Vec<String> = Vec::new();
        extend_strings(&mut features, &self.build.features);
        if self.build.platform == Platform::Server {
            extend_strings(&mut features, &self.build.server_features);
        } else {
            extend_strings(&mut features, &self.build.client_features);
        }
        assert(features.deep_view() =~= self.target_features_spec());
        features
    }

    /// The target features merged with the package's default features, unless
    /// those are switched off, with repeats dropped.
    pub fn all_target_features(&self) -> (r: Vec<String>)
        ensures
            r.deep_view() == self.all_target_features_spec(),
    {
        let mut features = self.target_features();
        if !self.build.no_default_features {
            match &self.krate.default_features {
                Some(d) => extend_strings(&mut features, d),
                None => {},
            }
        }
        assert(features.deep_view() =~= self.target_features_spec() + self.default_features_spec());
        dedup_strings(features)
    }
}

/// The layout is fixed by the platform, the profile, the architecture, the
/// bundle name and the output directory: equal inputs give equal directories.
pub proof fn lemma_layout_determined(a: BuildRequest, b: BuildRequest)
    requires
        a.build.platform == b.build.platform,
        a.build.release == b.build.release,
        a.build.arch == b.build.arch,
        a.krate.out_dir@ == b.krate.out_dir@,
        a.krate.bundled_app_name@ == b.krate.bundled_app_name@,
    ensures
        a.root_dir_spec() == b.root_dir_spec(),
        a.exe_dir_spec() == b.exe_dir_spec(),
        a.asset_dir_spec() == b.asset_dir_spec(),
{
}

/// A macOS bundle keeps its executable in `<name>.app/Contents/MacOS` and its
/// assets in `<name>.app/Contents/Resources/assets`.
pub proof fn lemma_bundle_layout(r: BuildRequest)
    requires
        r.build.platform == Platform::MacOS,
    ensures
        r.exe_dir_spec().len() >= 3,
        r.exe_dir_spec().subrange(r.exe_dir_spec().len() - 3, r.exe_dir_spec().len() as int)
            == seq![r.krate.bundled_app_name@ + ".app"@, "Contents"@, "MacOS"@],
        r.asset_dir_spec() == r.root_dir_spec().push("Contents"@).push("Resources"@).push(
            "assets"@,
        ),
{
    let e = r.exe_dir_spec();
    assert(e.subrange(e.len() - 3, e.len() as int) =~= seq![
        r.krate.bundled_app_name@ + ".app"@,
        "Contents"@,
        "MacOS"@,
    ]);
}

/// The web build serves from `public` and keeps its module under `public/wasm`.
pub proof fn lemma_web_layout(r: BuildRequest)
    requires
        r.build.platform == Platform::Web,
    ensures
        r.root_dir_spec().last() == "public"@,
        r.exe_dir_spec() == r.root_dir_spec().push("wasm"@),
        r.exe_dir_spec().last() == "wasm"@,
{
}

/// The server's root is its platform folder itself, shared with the web build.
pub proof fn lemma_server_root(r: BuildRequest)
    requires
        r.build.platform == Platform::Server,
    ensures
        r.root_dir_spec() == r.platform_dir_spec(),
        r.exe_dir_spec() == r.root_dir_spec(),
        r.platform_dir_spec().last() == "web"@,
{
}

} // verus!
