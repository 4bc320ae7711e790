use dx_build::error::BuildError;
use dx_build::path::BuildPath;
use dx_build::platform::{Arch, Platform, TargetKind};
use dx_build::request::{BuildArgs, BuildMode, BuildRequest, CrateInfo};

fn strings(v: &[&str]) -> Vec<String> {
    v.iter().map(|s| s.to_string()).collect()
}

fn args(platform: Platform) -> BuildArgs {
    BuildArgs {
        platform,
        release: false,
        profile: None,
        server_profile: "server-dev".to_string(),
        fullstack: false,
        force_sequential: false,
        target: None,
        device: None,
        arch: Arch::Arm64,
        package: None,
        features: vec![],
        client_features: vec![],
        server_features: vec![],
        no_default_features: false,
        cargo_args: vec![],
        experimental_wasm_split: false,
    }
}

fn krate() -> CrateInfo {
    CrateInfo {
        executable_name: "demo".to_string(),
        bundled_app_name: "Foo".to_string(),
        executable_type: TargetKind::Bin,
        default_features: None,
        out_dir: BuildPath::new("/w/target/dx/demo"),
        base_path: None,
        title: "Demo".to_string(),
    }
}

fn request(platform: Platform) -> BuildRequest {
    BuildRequest::new(krate(), args(platform), BuildMode::Base)
}

#[test]
fn macos_bundle_layout() {
    let r = request(Platform::MacOS);
    assert_eq!(r.root_dir().display(), "/w/target/dx/demo/debug/macos/Foo.app");
    assert_eq!(r.exe_dir().display(), "/w/target/dx/demo/debug/macos/Foo.app/Contents/MacOS");
    assert!(r.exe_dir().display().ends_with("Foo.app/Contents/MacOS"));
    assert_eq!(
        r.asset_dir().display(),
        "/w/target/dx/demo/debug/macos/Foo.app/Contents/Resources/assets"
    );
}

#[test]
fn web_layout() {
    let r = request(Platform::Web);
    assert!(r.root_dir().display().ends_with("public"));
    assert!(r.exe_dir().display().ends_with("wasm"));
    assert_eq!(r.exe_dir().display(), "/w/target/dx/demo/debug/web/public/wasm");
    assert_eq!(r.asset_dir().display(), "/w/target/dx/demo/debug/web/public/assets");
}

#[test]
fn release_profile_folder() {
    let mut a = args(Platform::Linux);
    a.release = true;
    let r = BuildRequest::new(krate(), a, BuildMode::Base);
    assert_eq!(r.platform_dir().display(), "/w/target/dx/demo/release/linux");
    assert_eq!(r.root_dir().display(), "/w/target/dx/demo/release/linux/app");
    assert_eq!(r.exe_dir().display(), r.root_dir().display());
}

#[test]
fn server_shares_web_folder() {
    let r = request(Platform::Server);
    assert_eq!(r.root_dir().display(), "/w/target/dx/demo/debug/web");
    assert_eq!(r.exe_dir().display(), "/w/target/dx/demo/debug/web");
    assert_eq!(r.asset_dir().display(), "/w/target/dx/demo/debug/web/assets");
}

#[test]
fn android_layout() {
    let mut a = args(Platform::Android);
    a.arch = Arch::Arm;
    let r = BuildRequest::new(krate(), a, BuildMode::Base);
    assert_eq!(
        r.exe_dir().display(),
        "/w/target/dx/demo/debug/android/app/app/src/main/jniLibs/armeabi-v7a"
    );
    assert_eq!(
        r.asset_dir().display(),
        "/w/target/dx/demo/debug/android/app/app/src/main/assets"
    );
    assert_eq!(
        r.wry_android_kotlin_files_out_dir().display(),
        "/w/target/dx/demo/debug/android/app/app/src/main/kotlin/dev/dioxus/main"
    );
}

#[test]
fn ios_bundle_root() {
    let r = request(Platform::Ios);
    assert_eq!(r.root_dir().display(), "/w/target/dx/demo/debug/ios/Foo.app");
    assert_eq!(r.exe_dir().display(), r.root_dir().display());
    assert_eq!(r.asset_dir().display(), "/w/target/dx/demo/debug/ios/Foo.app/assets");
}

#[test]
fn layout_is_repeatable() {
    let a = request(Platform::MacOS);
    let b = request(Platform::MacOS);
    assert_eq!(a.exe_dir().segments, b.exe_dir().segments);
    assert_eq!(a.root_dir().segments, a.root_dir().segments);
}

#[test]
fn side_files() {
    let r = request(Platform::Web);
    assert_eq!(
        r.incremental_cache_dir().display(),
        "/w/target/dx/demo/debug/web/incremental-cache"
    );
    assert_eq!(
        r.asset_optimizer_version_file().display(),
        "/w/target/dx/demo/debug/web/.cli-version"
    );
    assert_eq!(r.wasm_bindgen_out_dir().display(), "/w/target/dx/demo/debug/web/public/wasm");
    assert_eq!(
        r.wasm_bindgen_js_output_file().display(),
        "/w/target/dx/demo/debug/web/public/wasm/demo.js"
    );
    assert_eq!(
        r.wasm_bindgen_wasm_output_file().display(),
        "/w/target/dx/demo/debug/web/public/wasm/demo_bg.wasm"
    );
}

#[test]
fn extension_replaces_last_dot() {
    let p = BuildPath::new("/o").join("my.app");
    assert_eq!(p.with_extension("js").display(), "/o/my.js");
    let q = BuildPath::new("/o").join(".hidden");
    assert_eq!(q.with_extension("js").display(), "/o/.hidden.js");
}

#[test]
fn exe_names() {
    assert_eq!(request(Platform::Windows).platform_exe_name(), Ok("demo.exe".to_string()));
    assert_eq!(request(Platform::Linux).platform_exe_name(), Ok("demo".to_string()));
    assert_eq!(request(Platform::MacOS).platform_exe_name(), Ok("demo".to_string()));
    assert_eq!(
        request(Platform::Android).platform_exe_name(),
        Ok("libdioxusmain.so".to_string())
    );
    assert_eq!(
        request(Platform::Web).platform_exe_name(),
        Err(BuildError::NoMainExecutable)
    );
}

#[test]
fn feature_merge_dedups() {
    let mut a = args(Platform::Web);
    a.features = strings(&["a", "b"]);
    a.client_features = strings(&["web", "a"]);
    a.server_features = strings(&["server"]);
    let mut k = krate();
    k.default_features = Some(strings(&["b", "std"]));
    let r = BuildRequest::new(k, a, BuildMode::Base);
    assert_eq!(r.target_features(), strings(&["a", "b", "web", "a"]));
    assert_eq!(r.all_target_features(), strings(&["a", "b", "web", "std"]));
}

#[test]
fn feature_merge_idempotent() {
    let mut a = args(Platform::Server);
    a.features = strings(&["x", "y", "x"]);
    a.server_features = strings(&["x", "y", "x"]);
    let r = BuildRequest::new(krate(), a, BuildMode::Base);
    let once = r.all_target_features();
    let mut b = args(Platform::Server);
    b.features = once.clone();
    let again = BuildRequest::new(krate(), b, BuildMode::Base).all_target_features();
    assert_eq!(once, strings(&["x", "y"]));
    assert_eq!(again, once);
}

#[test]
fn no_default_features_skips_defaults() {
    let mut a = args(Platform::Linux);
    a.no_default_features = true;
    let mut k = krate();
    k.default_features = Some(strings(&["std"]));
    let r = BuildRequest::new(k, a, BuildMode::Base);
    assert!(r.all_target_features().is_empty());
}

#[test]
fn server_request_only_when_fullstack() {
    assert!(request(Platform::Web).build_server_request().is_none());
    let mut a = args(Platform::Web);
    a.fullstack = true;
    a.features = strings(&["shared"]);
    a.server_features = strings(&["server"]);
    let r = BuildRequest::new(krate(), a, BuildMode::Fat);
    let s = r.build_server_request().unwrap();
    assert_eq!(s.build.platform, Platform::Server);
    assert_eq!(s.build.features, strings(&["shared"]));
    assert_eq!(s.target_features(), strings(&["shared", "server"]));
    assert!(matches!(s.mode, BuildMode::Fat));
    assert_eq!(s.root_dir().display(), "/w/target/dx/demo/debug/web");
}

#[test]
fn build_dirs_plan() {
    let r = request(Platform::MacOS);
    let dirs: Vec<String> = r.build_dirs().iter().map(|d| d.display()).collect();
    assert_eq!(dirs, vec![r.root_dir().display(), r.exe_dir().display(), r.asset_dir().display()]);
    let a = request(Platform::Android);
    let dirs: Vec<String> = a.build_dirs().iter().map(|d| d.display()).collect();
    assert_eq!(dirs.len(), 20);
    assert_eq!(dirs[3], "/w/target/dx/demo/debug/android/app/gradle/wrapper");
    assert_eq!(dirs[19], "/w/target/dx/demo/debug/android/app/app/src/main/res/mipmap-xxxhdpi");
}
