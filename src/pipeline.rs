//! The build pipeline's decisions: compiler and optimizer arguments, artifact
//! names and layout, the backend's default environment, and where wasm-opt
//! is downloaded from.
use vstd::prelude::*;
use crate::env::in_dir;
use crate::text::{chars_of, decimal, decimal_chars, first_occ, find_from, push_str, string_of};

verus! {

/// The compiler arguments of a client-side-rendering build; the `csr`
/// feature only when the package defines it.
pub fn cargo_build_args(has_csr_feature: bool) -> (r: Vec<&'static str>)
    ensures
        r@.len() == if has_csr_feature { 2int } else { 1int },
        r@[0]@ == "--target=wasm32-unknown-unknown"@,
        has_csr_feature ==> r@[1]@ == "--features=csr"@,
{
    let mut args = vec!["--target=wasm32-unknown-unknown"];
    if has_csr_feature {
        args.push("--features=csr");
    }
    args
}

/// The compiler arguments of the hydrating client's build.
pub fn hydrate_cargo_build_args() -> (r: Vec<&'static str>)
    ensures
        r@.len() == 3,
        r@[0]@ == "--target=wasm32-unknown-unknown"@,
        r@[1]@ == "--lib"@,
        r@[2]@ == "--features=hydrate"@,
{
    vec!["--target=wasm32-unknown-unknown", "--lib", "--features=hydrate"]
}

/// The compiler arguments of the server executable's build.
pub fn ssr_cargo_build_args() -> (r: Vec<&'static str>)
    ensures
        r@.len() == 1,
        r@[0]@ == "--features=ssr"@,
{
    vec!["--features=ssr"]
}

/// The full argument list of `cargo`: `build`, the build's own arguments,
/// `--release` for release builds, and the JSON message format.
pub fn cargo_command_args(args: &Vec<&'static str>, release: bool) -> (r: Vec<&'static str>)
    ensures
        r@.len() == args@.len() + if release { 3int } else { 2int },
        r@[0]@ == "build"@,
        forall|i: int| 0 <= i < args@.len() ==> r@[i + 1] == #[trigger] args@[i],
        release ==> r@[args@.len() as int + 1]@ == "--release"@,
        r@[r@.len() - 1]@ == "--message-format=json-diagnostic-rendered-ansi"@,
{
    let mut out: Vec<&'static str> = vec!["build"];
    let mut i: usize = 0;
    while i < args.len()
        invariant
            i <= args@.len(),
            out@.len() == i + 1,
            out@[0]@ == "build"@,
            forall|k: int| 0 <= k < i ==> out@[k + 1] == #[trigger] args@[k],
        decreases args@.len() - i,
    {
        out.push(args[i]);
        i = i + 1;
    }
    if release {
        out.push("--release");
    }
    out.push("--message-format=json-diagnostic-rendered-ansi");
    out
}

/// The `RUSTFLAGS` of a build: type-erased components only when serving with
/// the option on.
pub fn rustflags(serve: bool, erase_components: bool) -> (r: Option<&'static str>)
    ensures
        serve && erase_components ==> (r matches Some(f) && f@ == "--cfg erase_components"@),
        !(serve && erase_components) ==> r is None,
{
    if serve && erase_components {
        Some("--cfg erase_components")
    } else {
        None
    }
}

/// The executable's file name: the package name, with `.exe` on Windows.
pub fn cargo_build_exe_name(package: &str, windows: bool) -> (r: String)
    ensures
        r@ == if windows { package@ + ".exe"@ } else { package@ },
{
    let mut out = chars_of(package);
    if windows {
        push_str(&mut out, ".exe");
    }
    string_of(&out)
}

pub open spec fn profile(release: bool) -> Seq<char> {
    if release { "release"@ } else { "debug"@ }
}

fn profile_name(release: bool) -> (r: &'static str)
    ensures
        r@ == profile(release),
{
    if release { "release" } else { "debug" }
}

/// The compiled WASM module, relative to the target directory.
pub fn build_wasm_path(release: bool, package: &str) -> (r: String)
    ensures
        r@ == "wasm32-unknown-unknown/"@ + profile(release) + seq!['/'] + package@ + ".wasm"@,
{
    let mut out = chars_of("wasm32-unknown-unknown/");
    push_str(&mut out, profile_name(release));
    out.push('/');
    push_str(&mut out, package);
    push_str(&mut out, ".wasm");
    string_of(&out)
}

/// The name of the optimized module in the assets dir: `<package>_bg.wasm`,
/// or `<package>.wasm` for server-side rendering.
pub fn wasm_output_name(package: &str, ssr: bool) -> (r: String)
    ensures
        r@ == package@ + if ssr { ".wasm"@ } else { "_bg.wasm"@ },
{
    let mut out = chars_of(package);
    if ssr {
        push_str(&mut out, ".wasm");
    } else {
        push_str(&mut out, "_bg.wasm");
    }
    string_of(&out)
}

/// The arguments of wasm-opt: size optimization with a fixed feature set.
pub fn wasm_opt_args(input: &str, output: &str) -> (r: Vec<String>)
    ensures
        r@.len() == 9,
        r@[0]@ == input@,
        r@[1]@ == "-o"@,
        r@[2]@ == output@,
        r@[3]@ == "-Oz"@,
        r@[4]@ == "--enable-reference-types"@,
        r@[5]@ == "--enable-bulk-memory"@,
        r@[6]@ == "--enable-mutable-globals"@,
        r@[7]@ == "--enable-nontrapping-float-to-int"@,
        r@[8]@ == "--debuginfo"@,
{
    vec![
        input.to_owned(),
        "-o".to_owned(),
        output.to_owned(),
        "-Oz".to_owned(),
        "--enable-reference-types".to_owned(),
        "--enable-bulk-memory".to_owned(),
        "--enable-mutable-globals".to_owned(),
        "--enable-nontrapping-float-to-int".to_owned(),
        "--debuginfo".to_owned(),
    ]
}

/// The environment the backend gets unless the user sets the same keys.
pub fn default_env(package: &str, port: u32) -> (r: Vec<(String, String)>)
    ensures
        r@.len() == 5,
        r@[0].0@ == "LEPTOS_OUTPUT_NAME"@ && r@[0].1@ == package@,
        r@[1].0@ == "LEPTOS_SITE_PKG_DIR"@ && r@[1].1@ == "assets"@,
        r@[2].0@ == "LEPTOS_WATCH"@ && r@[2].1@.len() == 0,
        r@[3].0@ == "LEPTOS_RELOAD_EXTERNAL_PORT"@ && r@[3].1@ == decimal(port as nat),
        r@[4].0@ == "LEPTOS_SITE_ADDR"@ && r@[4].1@ == "127.0.0.1:3000"@,
{
    let port_text = string_of(&decimal_chars(port));
    vec![
        ("LEPTOS_OUTPUT_NAME".to_owned(), package.to_owned()),
        ("LEPTOS_SITE_PKG_DIR".to_owned(), "assets".to_owned()),
        ("LEPTOS_WATCH".to_owned(), String::new()),
        ("LEPTOS_RELOAD_EXTERNAL_PORT".to_owned(), port_text),
        ("LEPTOS_SITE_ADDR".to_owned(), "127.0.0.1:3000".to_owned()),
    ]
}

/// `KEY=VALUE` lines joined by newlines.
pub open spec fn env_text(envs: Seq<(String, String)>) -> Seq<char>
    decreases envs.len(),
{
    if envs.len() == 0 {
        Seq::empty()
    } else if envs.len() == 1 {
        envs[0].0@ + seq!['='] + envs[0].1@
    } else {
        env_text(envs.drop_last()) + seq!['\n'] + envs.last().0@ + seq!['='] + envs.last().1@
    }
}

/// The `.env` file written next to the server executable.
pub fn env_file_text(envs: &Vec<(String, String)>) -> (r: String)
    ensures
        r@ == env_text(envs@),
{
    let mut out: Vec<char> = Vec::new();
    let mut i: usize = 0;
    while i < envs.len()
        invariant
            i <= envs@.len(),
            out@ == env_text(envs@.subrange(0, i as int)),
        decreases envs@.len() - i,
    {
        let ghost before = out@;
        if i > 0 {
            out.push('\n');
        }
        push_str(&mut out, envs[i].0.as_str());
        out.push('=');
        push_str(&mut out, envs[i].1.as_str());
        proof {
            let a = envs@.subrange(0, i + 1);
            assert(a.drop_last() == envs@.subrange(0, i as int));
            if i == 0 {
                assert(out@ =~= env_text(a));
            } else {
                assert(out@ =~= env_text(a));
            }
        }
        i = i + 1;
    }
    proof {
        assert(envs@.subrange(0, envs@.len() as int) == envs@);
    }
    string_of(&out)
}

/// The project has no package name to build.
#[derive(Debug, Clone, Copy, PartialEq, Eq, Structural)]
pub enum ManifestError {
    NoPackageName,
}

/// The package name: the manifest's, else the project directory's name.
pub fn package_name(manifest_package: Option<String>, dir_name: Option<String>) -> (r: Result<
    String,
    ManifestError,
>)
    ensures
        manifest_package matches Some(p) ==> r == Ok::<String, ManifestError>(p),
        (manifest_package is None && dir_name is Some) ==> r == Ok::<String, ManifestError>(
            dir_name.unwrap(),
        ),
        manifest_package is None && dir_name is None ==> r == Err::<String, ManifestError>(
            ManifestError::NoPackageName,
        ),
{
    match manifest_package {
        Some(p) => Ok(p),
        None => match dir_name {
            Some(d) => Ok(d),
            None => Err(ManifestError::NoPackageName),
        },
    }
}

/// The directories a build writes to.
#[derive(Debug)]
pub struct Layout {
    pub wasm_bindgen_dir: String,
    pub out_dir: String,
    pub assets_dir: String,
}

/// Where the build goes: serving writes under the target directory, by
/// profile and package; building writes to the configured out dir.
pub fn layout(
    current_dir: &str,
    target_dir: &str,
    package: &str,
    release: bool,
    serve: bool,
    out_dir: &str,
    assets_dir: &str,
) -> (r: Layout)
    ensures
        r.wasm_bindgen_dir@ == in_dir(
            in_dir(in_dir(in_dir(target_dir@, "thaw-cli"@), "wasm-bindgen"@), profile(release)),
            package@,
        ),
        serve ==> r.out_dir@ == in_dir(
            in_dir(in_dir(target_dir@, "thaw-cli"@), profile(release)),
            package@,
        ),
        !serve ==> r.out_dir@ == in_dir(current_dir@, out_dir@),
        r.assets_dir@ == in_dir(r.out_dir@, assets_dir@),
{
    let cli_dir = join(target_dir, "thaw-cli");
    let bindgen = join(&join(&join(&cli_dir, "wasm-bindgen"), profile_name(release)), package);
    let out = if serve {
        join(&join(&cli_dir, profile_name(release)), package)
    } else {
        join(current_dir, out_dir)
    };
    let assets = join(&out, assets_dir);
    Layout { wasm_bindgen_dir: bindgen, out_dir: out, assets_dir: assets }
}

/// `name` inside `dir`.
pub fn join(dir: &str, name: &str) -> (r: String)
    ensures
        r@ == in_dir(dir@, name@),
{
    let mut out = chars_of(dir);
    if out.len() > 0 {
        out.push('/');
    }
    push_str(&mut out, name);
    assert(out@ =~= in_dir(dir@, name@));
    string_of(&out)
}

/// The wasm-opt executable's file name.
pub fn binaryen_bin_name(windows: bool) -> (r: &'static str)
    ensures
        r@ == if windows { "wasm-opt.exe"@ } else { "wasm-opt"@ },
{
    if windows { "wasm-opt.exe" } else { "wasm-opt" }
}

/// The binaryen release platform for an operating system and architecture.
pub fn binaryen_platform(os: &str, arch: &str) -> (r: Option<&'static str>)
    ensures
        os@ == "windows"@ && arch@ == "x86_64"@ ==> (r matches Some(p) && p@ == "x86_64-windows"@),
        os@ == "linux"@ && arch@ == "x86_64"@ ==> (r matches Some(p) && p@ == "x86_64-linux"@),
        os@ == "linux"@ && arch@ == "aarch64"@ ==> (r matches Some(p) && p@ == "aarch64-linux"@),
        os@ == "macos"@ && arch@ == "x86_64"@ ==> (r matches Some(p) && p@ == "x86_64-macos"@),
        os@ == "macos"@ && arch@ == "aarch64"@ ==> (r matches Some(p) && p@ == "arm64-macos"@),
        !((os@ == "windows"@ && arch@ == "x86_64"@) || (os@ == "linux"@ && (arch@ == "x86_64"@
            || arch@ == "aarch64"@)) || (os@ == "macos"@ && (arch@ == "x86_64"@ || arch@
            == "aarch64"@))) ==> r is None,
{
    proof {
        reveal_strlit("windows");
        reveal_strlit("linux");
        reveal_strlit("macos");
        reveal_strlit("x86_64");
        reveal_strlit("aarch64");
        assert("windows"@.len() == 7);
        assert("linux"@.len() == 5);
        assert("macos"@.len() == 5);
        assert("windows"@ != "linux"@);
        assert("windows"@ != "macos"@);
        assert("linux"@[0] != "macos"@[0]);
        assert("linux"@ != "macos"@);
        assert("x86_64"@.len() == 6);
        assert("aarch64"@.len() == 7);
        assert("x86_64"@ != "aarch64"@);
    }
    let os = os.to_owned();
    let arch = arch.to_owned();
    let x86 = arch == "x86_64".to_owned();
    let arm = arch == "aarch64".to_owned();
    if os == "windows".to_owned() && x86 {
        Some("x86_64-windows")
    } else if os == "linux".to_owned() && x86 {
        Some("x86_64-linux")
    } else if os == "linux".to_owned() && arm {
        Some("aarch64-linux")
    } else if os == "macos".to_owned() && x86 {
        Some("x86_64-macos")
    } else if os == "macos".to_owned() && arm {
        Some("arm64-macos")
    } else {
        None
    }
}

/// One asset of a binaryen release, as the release API lists it.
#[derive(Debug)]
pub struct ReleaseAsset {
    pub name: Option<String>,
    pub browser_download_url: Option<String>,
}

/// Why no wasm-opt download could be chosen.
#[derive(Debug)]
pub enum BinaryenError {
    /// The release API answered with this message.
    Api(String),
    NoTagName,
    NoAssets,
    UnknownPlatform,
    /// No asset of the release is for this platform.
    NoBinary(String),
    NoDownloadUrl,
}

/// The asset's name mentions `platform`.
pub open spec fn for_platform(a: ReleaseAsset, platform: Seq<char>) -> bool {
    a.name matches Some(n) && first_occ(n@, platform, 0) != -1
}

/// The first asset, from index `i` on, for `platform`, or -1.
pub open spec fn platform_asset(assets: Seq<ReleaseAsset>, platform: Seq<char>, i: int) -> int
    decreases assets.len() - i,
{
    if i < 0 || i >= assets.len() {
        -1
    } else if for_platform(assets[i], platform) {
        i
    } else {
        platform_asset(assets, platform, i + 1)
    }
}

/// The directory the release unpacks to and the URL of its archive for
/// `platform`, from the fields of the latest-release answer.
pub fn find_binaryen_download(
    message: Option<String>,
    tag_name: Option<String>,
    assets: Option<Vec<ReleaseAsset>>,
    platform: Option<&str>,
) -> (r: Result<(String, String), BinaryenError>)
    ensures
        message matches Some(m) ==> (r matches Err(BinaryenError::Api(e)) && e == m),
        message is None && tag_name is None ==> (r matches Err(BinaryenError::NoTagName)),
        message is None && tag_name is Some && assets is None ==> r matches Err(
            BinaryenError::NoAssets,
        ),
        message is None && tag_name is Some && assets is Some && platform is None ==> r matches Err(
            BinaryenError::UnknownPlatform,
        ),
        message is None && tag_name is Some && assets is Some && platform is Some ==> ({
            let t = tag_name.unwrap();
            let a = assets.unwrap()@;
            let p = platform.unwrap()@;
            let i = platform_asset(a, p, 0);
            if i == -1 {
                r matches Err(BinaryenError::NoBinary(q)) && q@ == p
            } else {
                match a[i].browser_download_url {
                    None => r matches Err(BinaryenError::NoDownloadUrl),
                    Some(u) => r matches Ok((d, url)) && d@ == "binaryen-"@ + t@ && url == u,
                }
            }
        }),
{
    match message {
        Some(m) => {
            return Err(BinaryenError::Api(m));
        },
        None => {},
    }
    let tag = match tag_name {
        Some(t) => t,
        None => {
            return Err(BinaryenError::NoTagName);
        },
    };
    let list = match assets {
        Some(a) => a,
        None => {
            return Err(BinaryenError::NoAssets);
        },
    };
    let plat = match platform {
        Some(p) => p,
        None => {
            return Err(BinaryenError::UnknownPlatform);
        },
    };
    let ghost all = list@;
    let wanted = chars_of(plat);
    let mut rest = list;
    let ghost mut i: int = 0;
    while rest.len() > 0
        invariant
            0 <= i <= all.len(),
            rest@ == all.subrange(i, all.len() as int),
            wanted@ == plat@,
            message is None,
            tag_name == Some(tag),
            assets matches Some(a) && a@ == all,
            platform == Some(plat),
            platform_asset(all, plat@, 0) == platform_asset(all, plat@, i),
        decreases rest@.len(),
    {
        let a = rest.remove(0);
        proof {
            assert(a == all[i]);
            assert(rest@ == all.subrange(i + 1, all.len() as int));
        }
        let matched = match &a.name {
            Some(n) => find_from(&chars_of(n.as_str()), &wanted, 0).is_some(),
            None => false,
        };
        if matched {
            let mut dir = chars_of("binaryen-");
            push_str(&mut dir, tag.as_str());
            return match a.browser_download_url {
                Some(u) => Ok((string_of(&dir), u)),
                None => Err(BinaryenError::NoDownloadUrl),
            };
        }
        proof {
            i = i + 1;
        }
    }
    Err(BinaryenError::NoBinary(plat.to_owned()))
}

} // verus!
