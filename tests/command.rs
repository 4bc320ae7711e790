use dx_build::error::BuildError;
use dx_build::link::{decimal_string, AndroidToolchain, LinkAction, PatchTarget};
use dx_build::path::BuildPath;
use dx_build::platform::{Arch, Platform, TargetKind};
use dx_build::request::{
    estimate_units_from_targets, get_unit_count_estimate, BuildArgs, BuildMode, BuildRequest,
    CrateInfo,
};

fn strings(v: &[&str]) -> Vec<String> {
    v.iter().map(|s| s.to_string()).collect()
}

fn args(platform: Platform) -> BuildArgs {
    BuildArgs {
        platform,
        release: false,
        profile: None,
        server_profile: "server-dev".to_string(),
        fullstack: false,
        force_sequential: false,
        target: None,
        device: None,
        arch: Arch::Arm64,
        package: None,
        features: vec![],
        client_features: vec![],
        server_features: vec![],
        no_default_features: false,
        cargo_args: vec![],
        experimental_wasm_split: false,
    }
}

fn krate() -> CrateInfo {
    CrateInfo {
        executable_name: "demo".to_string(),
        bundled_app_name: "Demo".to_string(),
        executable_type: TargetKind::Bin,
        default_features: None,
        out_dir: BuildPath::new("/t"),
        base_path: None,
        title: "Demo App".to_string(),
    }
}

#[test]
fn web_fat_arguments() {
    let mut a = args(Platform::Web);
    a.release = true;
    a.features = strings(&["web"]);
    a.package = Some("app".to_string());
    a.cargo_args = strings(&["--locked"]);
    a.experimental_wasm_split = true;
    let r = BuildRequest::new(krate(), a, BuildMode::Fat);
    assert_eq!(
        r.build_arguments("/bin/dx"),
        strings(&[
            "--profile",
            "release",
            "--target",
            "wasm32-unknown-unknown",
            "--verbose",
            "--features",
            "web",
            "-p",
            "app",
            "--locked",
            "--bin",
            "demo",
            "--",
            "-Clink-args=--emit-relocs",
            "-Clinker=/bin/dx",
        ])
    );
}

#[test]
fn server_arguments_use_server_profile() {
    let mut a = args(Platform::Server);
    a.target = Some("x86_64-unknown-linux-gnu".to_string());
    a.server_features = strings(&["server", "ssr"]);
    a.no_default_features = true;
    let mut k = krate();
    k.executable_type = TargetKind::Example;
    let r = BuildRequest::new(k, a, BuildMode::Base);
    assert_eq!(
        r.build_arguments("/bin/dx"),
        strings(&[
            "--profile",
            "server-dev",
            "--verbose",
            "--no-default-features",
            "--features",
            "server ssr",
            "--example",
            "demo",
            "--",
        ])
    );
}

#[test]
fn desktop_arguments_take_target_override() {
    let mut a = args(Platform::Linux);
    a.profile = Some("fast".to_string());
    a.target = Some("aarch64-unknown-linux-gnu".to_string());
    let mut k = krate();
    k.executable_type = TargetKind::Lib;
    let r = BuildRequest::new(k, a, BuildMode::Thin { direct_rustc: vec![] });
    assert_eq!(
        r.build_arguments("/bin/dx"),
        strings(&[
            "--profile",
            "fast",
            "--target",
            "aarch64-unknown-linux-gnu",
            "--verbose",
            "--lib",
            "demo",
            "--",
            "-Clinker=/bin/dx",
        ])
    );
}

#[test]
fn mobile_triples() {
    let mut a = args(Platform::Ios);
    a.device = Some(true);
    let r = BuildRequest::new(krate(), a, BuildMode::Base);
    assert_eq!(r.build_arguments("x")[1], "aarch64-apple-ios");
    let r = BuildRequest::new(krate(), args(Platform::Ios), BuildMode::Base);
    assert_eq!(r.build_arguments("x")[1], "aarch64-apple-ios-sim");
    let mut a = args(Platform::Android);
    a.arch = Arch::X64;
    let r = BuildRequest::new(krate(), a, BuildMode::Base);
    assert_eq!(r.build_arguments("x")[1], "x86_64-linux-android");
}

#[test]
fn command_prefixes() {
    let r = BuildRequest::new(krate(), args(Platform::MacOS), BuildMode::Base);
    let c = r.command_arguments("/bin/dx");
    assert_eq!(&c[..4], &strings(&["rustc", "--message-format", "json-diagnostic-rendered-ansi", "--verbose"])[..]);
    let u = r.unit_graph_arguments("/bin/dx");
    assert_eq!(&u[..6], &strings(&["+nightly", "build", "--unit-graph", "-Z", "unstable-options", "--verbose"])[..]);
}

#[test]
fn thin_expects_one_unit() {
    let r = BuildRequest::new(krate(), args(Platform::Linux), BuildMode::Thin { direct_rustc: vec![] });
    assert!(r.is_patch());
    assert!(!r.needs_unit_estimate());
    assert_eq!(r.expected_units(0), 1);
    assert_eq!(r.expected_units(250), 1);
    let f = BuildRequest::new(krate(), args(Platform::Linux), BuildMode::Fat);
    assert!(f.needs_unit_estimate());
    assert_eq!(f.expected_units(250), 250);
}

#[test]
fn unit_estimate_heuristic() {
    assert_eq!(estimate_units_from_targets(&vec![]), 0);
    assert_eq!(estimate_units_from_targets(&vec![7, 3]), 2);
    assert_eq!(estimate_units_from_targets(&vec![1; 35]), 10);
    assert_eq!(estimate_units_from_targets(&vec![usize::MAX]), ((usize::MAX as u128 * 2) / 7) as usize);
    assert_eq!(estimate_units_from_targets(&vec![usize::MAX, 5]), ((usize::MAX as u128 * 2) / 7) as usize);
    assert_eq!(get_unit_count_estimate(Some(42), &vec![100]), 42);
    assert_eq!(get_unit_count_estimate(None, &vec![100]), 28);
}

#[test]
fn decimal_rendering() {
    assert_eq!(decimal_string(0), "0");
    assert_eq!(decimal_string(1234), "1234");
    assert_eq!(decimal_string(u64::MAX), "18446744073709551615");
}

#[test]
fn base_link_payload() {
    let r = BuildRequest::new(krate(), args(Platform::Web), BuildMode::Base);
    let a = r.link_action(None).unwrap();
    assert_eq!(
        a.to_json(),
        r#"{"BaseLink":{"platform":"web","linker":"cc","incremental_dir":"/t/debug/web/incremental-cache","strip":true}}"#
    );
    let f = BuildRequest::new(krate(), args(Platform::MacOS), BuildMode::Fat);
    assert!(f.link_action(None).unwrap().to_json().ends_with(r#""strip":false}}"#));
}

#[test]
fn thin_link_payload() {
    let r = BuildRequest::new(krate(), args(Platform::Linux), BuildMode::Thin { direct_rustc: vec![] });
    assert!(matches!(r.link_action(None), Err(BuildError::MissingPatchTarget)));
    let t = PatchTarget { main_ptr: 4096, patch_target: BuildPath::new("/t/old \"bin\"") };
    let a = r.link_action(Some(t)).unwrap();
    assert!(matches!(a, LinkAction::ThinLink { .. }));
    assert_eq!(
        a.to_json(),
        r#"{"ThinLink":{"platform":"linux","linker":"cc","incremental_dir":"/t/debug/linux/incremental-cache","main_ptr":4096,"patch_target":"/t/old \"bin\""}}"#
    );
}

#[test]
fn payload_escapes_control_characters() {
    let mut k = krate();
    k.out_dir = BuildPath::new("/t\\a\tb\u{1}c\u{7f}é");
    let r = BuildRequest::new(k, args(Platform::Windows), BuildMode::Base);
    assert_eq!(
        r.link_action(None).unwrap().to_json(),
        "{\"BaseLink\":{\"platform\":\"windows\",\"linker\":\"cc\",\"incremental_dir\":\"/t\\\\a\\tb\\u0001c\u{7f}é/debug/windows/incremental-cache\",\"strip\":true}}"
    );
}

#[test]
fn error_messages() {
    assert_eq!(BuildError::NoExecutable.message(), "Build did not return an executable");
    assert_eq!(BuildError::AndroidToolchainMissing.message(), "Could not autodetect android linker");
    assert!(BuildError::CargoFailed.message().starts_with("Cargo build failed"));
}

#[test]
fn release_env() {
    let mut a = args(Platform::Web);
    a.release = true;
    let mut k = krate();
    k.base_path = Some("docs".to_string());
    let mut r = BuildRequest::new(k, a, BuildMode::Base);
    r.custom_target_dir = Some(BuildPath::new("/tgt"));
    let env = r.env_vars(&None, "", "/bin/dx", None).unwrap();
    let keys: Vec<&str> = env.iter().map(|(k, _)| k.as_str()).collect();
    assert_eq!(keys, vec!["dx_magic_link_file", "CARGO_TARGET_DIR", "DIOXUS_ASSET_ROOT", "DIOXUS_APP_TITLE"]);
    assert_eq!(env[1].1, "/tgt");
    assert_eq!(env[2].1, "docs");
    assert_eq!(env[3].1, "Demo App");
    assert!(env[0].1.starts_with(r#"{"BaseLink":{"platform":"web""#));
}

#[test]
fn debug_env_has_only_intent() {
    let r = BuildRequest::new(krate(), args(Platform::Linux), BuildMode::Fat);
    let env = r.env_vars(&None, "", "/bin/dx", None).unwrap();
    assert_eq!(env.len(), 1);
}

#[test]
fn android_env() {
    let r = BuildRequest::new(krate(), args(Platform::Android), BuildMode::Base);
    assert_eq!(r.env_vars(&None, "", "/bin/dx", None), Err(BuildError::AndroidToolchainMissing));
    let t = AndroidToolchain {
        min_sdk_version: 24,
        ar_path: "/ndk/ar".to_string(),
        target_cc: "/ndk/cc".to_string(),
        target_cxx: "/ndk/cxx".to_string(),
        ndk_root: "/ndk".to_string(),
        java_home: None,
    };
    let env = r.env_vars(&Some(t), "-Copt-level=1", "/bin/dx", None).unwrap();
    let keys: Vec<&str> = env.iter().map(|(k, _)| k.as_str()).collect();
    assert_eq!(
        keys,
        vec![
            "ANDROID_NATIVE_API_LEVEL",
            "TARGET_AR",
            "TARGET_CC",
            "TARGET_CXX",
            "ANDROID_NDK_ROOT",
            "WRY_ANDROID_PACKAGE",
            "WRY_ANDROID_LIBRARY",
            "WRY_ANDROID_KOTLIN_FILES_OUT_DIR",
            "RUSTFLAGS",
            "dx_magic_link_file",
        ]
    );
    assert_eq!(env[0].1, "24");
    assert_eq!(env[5].1, "dev.dioxus.main");
    assert_eq!(env[6].1, "dioxusmain");
    assert_eq!(
        env[8].1,
        "-Copt-level=1 -Clinker=/bin/dx -Clink-arg=-landroid -Clink-arg=-llog -Clink-arg=-lOpenSLES -Clink-arg=-Wl,--export-dynamic"
    );
}

#[test]
fn rust_flags_outside_android() {
    let r = BuildRequest::new(krate(), args(Platform::Linux), BuildMode::Base);
    assert_eq!(r.android_rust_flags("-g", "/bin/dx"), "-g");
}
