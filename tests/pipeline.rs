use thaw_cli::pipeline::{
    binaryen_bin_name, binaryen_platform, build_wasm_path, cargo_build_args, cargo_build_exe_name,
    cargo_command_args, env_file_text, find_binaryen_download, hydrate_cargo_build_args, join,
    layout, package_name, rustflags, ssr_cargo_build_args, wasm_opt_args, wasm_output_name,
    BinaryenError, ManifestError, ReleaseAsset,
};
use thaw_cli::server::{
    bind_address, browser_action, browser_action_for, cache_dir_in, home_dir_from, local_url,
    BrowserAction,
};

fn release_asset(name: &str, url: Option<&str>) -> ReleaseAsset {
    ReleaseAsset { name: Some(name.to_string()), browser_download_url: url.map(|u| u.to_string()) }
}

#[test]
fn compiler_arguments() {
    assert_eq!(cargo_build_args(false), vec!["--target=wasm32-unknown-unknown"]);
    assert_eq!(cargo_build_args(true), vec!["--target=wasm32-unknown-unknown", "--features=csr"]);
    assert_eq!(hydrate_cargo_build_args(), vec!["--target=wasm32-unknown-unknown", "--lib", "--features=hydrate"]);
    assert_eq!(
        cargo_command_args(&ssr_cargo_build_args(), true),
        vec!["build", "--features=ssr", "--release", "--message-format=json-diagnostic-rendered-ansi"]
    );
    assert_eq!(cargo_command_args(&vec![], false), vec!["build", "--message-format=json-diagnostic-rendered-ansi"]);
    assert_eq!(rustflags(true, true), Some("--cfg erase_components"));
    assert_eq!(rustflags(false, true), None);
    assert_eq!(rustflags(true, false), None);
}

#[test]
fn artifact_names() {
    assert_eq!(cargo_build_exe_name("app", false), "app");
    assert_eq!(cargo_build_exe_name("app", true), "app.exe");
    assert_eq!(build_wasm_path(false, "app"), "wasm32-unknown-unknown/debug/app.wasm");
    assert_eq!(build_wasm_path(true, "app"), "wasm32-unknown-unknown/release/app.wasm");
    assert_eq!(wasm_output_name("app", false), "app_bg.wasm");
    assert_eq!(wasm_output_name("app", true), "app.wasm");
    assert_eq!(binaryen_bin_name(false), "wasm-opt");
    assert_eq!(binaryen_bin_name(true), "wasm-opt.exe");
}

#[test]
fn wasm_opt_optimizes_for_size_with_fixed_features() {
    assert_eq!(
        wasm_opt_args("in.wasm", "out.wasm"),
        vec![
            "in.wasm",
            "-o",
            "out.wasm",
            "-Oz",
            "--enable-reference-types",
            "--enable-bulk-memory",
            "--enable-mutable-globals",
            "--enable-nontrapping-float-to-int",
            "--debuginfo",
        ]
    );
}

#[test]
fn env_file_lines() {
    let envs = vec![("A".to_string(), "1".to_string()), ("B".to_string(), String::new())];
    assert_eq!(env_file_text(&envs), "A=1\nB=");
    assert_eq!(env_file_text(&vec![]), "");
}

#[test]
fn package_name_falls_back_to_the_directory() {
    assert_eq!(package_name(Some("app".to_string()), Some("dir".to_string())), Ok("app".to_string()));
    assert_eq!(package_name(None, Some("dir".to_string())), Ok("dir".to_string()));
    assert_eq!(package_name(None, None), Err(ManifestError::NoPackageName));
}

#[test]
fn build_layout() {
    let serve = layout("/p", "/p/target", "app", false, true, "dist", "assets");
    assert_eq!(serve.wasm_bindgen_dir, "/p/target/thaw-cli/wasm-bindgen/debug/app");
    assert_eq!(serve.out_dir, "/p/target/thaw-cli/debug/app");
    assert_eq!(serve.assets_dir, "/p/target/thaw-cli/debug/app/assets");
    let build = layout("/p", "/p/target", "app", true, false, "dist", "assets");
    assert_eq!(build.out_dir, "/p/dist");
    assert_eq!(build.assets_dir, "/p/dist/assets");
    assert_eq!(join("", "a"), "a");
}

#[test]
fn binaryen_platforms() {
    assert_eq!(binaryen_platform("linux", "x86_64"), Some("x86_64-linux"));
    assert_eq!(binaryen_platform("linux", "aarch64"), Some("aarch64-linux"));
    assert_eq!(binaryen_platform("macos", "aarch64"), Some("arm64-macos"));
    assert_eq!(binaryen_platform("macos", "x86_64"), Some("x86_64-macos"));
    assert_eq!(binaryen_platform("windows", "x86_64"), Some("x86_64-windows"));
    assert_eq!(binaryen_platform("windows", "aarch64"), None);
    assert_eq!(binaryen_platform("freebsd", "x86_64"), None);
}

#[test]
fn binaryen_download_choice() {
    let assets = || {
        Some(vec![
            release_asset("binaryen-version_1-x86_64-macos.tar.gz", Some("u1")),
            release_asset("binaryen-version_1-x86_64-linux.tar.gz", Some("u2")),
        ])
    };
    let ok = find_binaryen_download(None, Some("version_1".to_string()), assets(), Some("x86_64-linux"));
    assert_eq!(ok.unwrap(), ("binaryen-version_1".to_string(), "u2".to_string()));
    let e = find_binaryen_download(Some("rate limited".to_string()), None, None, None);
    assert!(matches!(e, Err(BinaryenError::Api(ref m)) if m == "rate limited"));
    assert!(matches!(find_binaryen_download(None, None, assets(), None), Err(BinaryenError::NoTagName)));
    assert!(matches!(find_binaryen_download(None, Some("v".to_string()), None, None), Err(BinaryenError::NoAssets)));
    assert!(matches!(find_binaryen_download(None, Some("v".to_string()), assets(), None), Err(BinaryenError::UnknownPlatform)));
    assert!(matches!(
        find_binaryen_download(None, Some("v".to_string()), assets(), Some("arm64-macos")),
        Err(BinaryenError::NoBinary(ref p)) if p == "arm64-macos"
    ));
    let no_url = Some(vec![release_asset("x86_64-linux.tar.gz", None)]);
    assert!(matches!(find_binaryen_download(None, Some("v".to_string()), no_url, Some("x86_64-linux")), Err(BinaryenError::NoDownloadUrl)));
}

#[test]
fn browser_choice() {
    assert!(matches!(browser_action(Some("none".to_string()), None), BrowserAction::Nothing));
    assert!(matches!(browser_action(Some("NONE".to_string()), Some("firefox".to_string())), BrowserAction::Nothing));
    assert!(matches!(browser_action(None, None), BrowserAction::SystemDefault));
    assert!(matches!(browser_action(None, Some("firefox".to_string())), BrowserAction::With(ref b) if b == "firefox"));
    assert!(matches!(browser_action_for("None".to_string(), "none"), BrowserAction::Nothing));
}

#[test]
fn addresses_and_directories() {
    assert_eq!(bind_address("localhost", 6321), "localhost:6321");
    assert_eq!(local_url("localhost", 6321), "http://localhost:6321");
    assert_eq!(home_dir_from(Some("/d".to_string()), Some("/h".to_string())), Some("/d/thaw-cli".to_string()));
    assert_eq!(home_dir_from(None, Some("/h".to_string())), Some("/h/.thaw-cli".to_string()));
    assert_eq!(home_dir_from(None, None), None);
    assert_eq!(cache_dir_in("/d/thaw-cli"), "/d/thaw-cli/cache");
}
