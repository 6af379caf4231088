//! Project configuration (`Thaw.toml`) and its defaults.
use vstd::prelude::*;

verus! {

pub fn default_public_dir() -> (r: String)
    ensures
        r@ == "public"@,
{
    "public".to_owned()
}

pub fn default_host() -> (r: String)
    ensures
        r@ == "localhost"@,
{
    "localhost".to_owned()
}

pub fn default_port() -> (r: u32)
    ensures
        r == 6321,
{
    6321
}

pub fn default_open() -> (r: bool)
    ensures
        r == false,
{
    false
}

pub fn default_erase_components() -> (r: bool)
    ensures
        r == false,
{
    false
}

pub fn default_out_dir() -> (r: String)
    ensures
        r@ == "dist"@,
{
    "dist".to_owned()
}

pub fn default_assets_dir() -> (r: String)
    ensures
        r@ == "assets"@,
{
    "assets".to_owned()
}

pub fn default_assets_manganis() -> (r: bool)
    ensures
        r == true,
{
    true
}

/// Where `.env` files are searched for: a directory (relative to the project
/// root, empty for the root itself), or nowhere.
#[derive(Debug)]
pub enum EnvDir {
    Path(String),
    False,
}

impl Default for EnvDir {
    fn default() -> (r: EnvDir)
        ensures
            r matches EnvDir::Path(p) && p@.len() == 0,
    {
        EnvDir::Path(String::new())
    }
}

/// The `env-dir` value as written in the file: a string or a boolean.
#[derive(Debug)]
pub enum EnvDirSetting {
    String(String),
    Bool(bool),
}

/// A configuration value that is not allowed.
#[derive(Debug, Clone, Copy, PartialEq, Eq, Structural)]
pub enum ConfigError {
    /// `env-dir = true`: only a string or `false` is accepted.
    EnvDirTrue,
}

impl EnvDir {
    /// A string names a directory, `false` switches loading off, `true` is refused.
    pub fn from_setting(v: EnvDirSetting) -> (r: Result<EnvDir, ConfigError>)
        ensures
            match v {
                EnvDirSetting::String(s) => r matches Ok(EnvDir::Path(p)) && p == s,
                EnvDirSetting::Bool(false) => r matches Ok(EnvDir::False),
                EnvDirSetting::Bool(true) => r == Err::<EnvDir, ConfigError>(
                    ConfigError::EnvDirTrue,
                ),
            },
    {
        match v {
            EnvDirSetting::String(s) => Ok(EnvDir::Path(s)),
            EnvDirSetting::Bool(false) => Ok(EnvDir::False),
            EnvDirSetting::Bool(true) => Err(ConfigError::EnvDirTrue),
        }
    }
}

/// A reverse-proxy rule: requests under `proxy` go to `target`.
#[derive(Debug)]
pub struct Proxy {
    pub proxy: String,
    pub target: String,
    /// Rewrite the `Host` header to the target's authority.
    pub change_origin: bool,
}

#[derive(Debug)]
pub struct WatchPath {
    pub path: String,
}

/// Extra paths to watch, and glob patterns of paths to ignore.
#[derive(Debug)]
pub struct Watch {
    pub paths: Vec<WatchPath>,
    pub ignored: Vec<String>,
}

impl Default for Watch {
    fn default() -> (r: Watch)
        ensures
            r.paths@.len() == 0,
            r.ignored@.len() == 0,
    {
        Watch { paths: Vec::new(), ignored: Vec::new() }
    }
}

#[derive(Debug)]
pub struct ServerConfig {
    pub host: String,
    pub port: u32,
    pub open: bool,
    pub proxy: Vec<Proxy>,
    pub watch: Watch,
    pub erase_components: bool,
}

impl Default for ServerConfig {
    fn default() -> (r: ServerConfig)
        ensures
            r.host@ == "localhost"@,
            r.port == 6321,
            r.open == false,
            r.proxy@.len() == 0,
            r.watch.paths@.len() == 0,
            r.watch.ignored@.len() == 0,
            r.erase_components == false,
    {
        ServerConfig {
            host: default_host(),
            port: default_port(),
            open: default_open(),
            proxy: Vec::new(),
            watch: Watch::default(),
            erase_components: default_erase_components(),
        }
    }
}

#[derive(Debug)]
pub struct BuildConfig {
    pub out_dir: String,
    pub assets_dir: String,
    pub assets_manganis: bool,
}

impl Default for BuildConfig {
    fn default() -> (r: BuildConfig)
        ensures
            r.out_dir@ == "dist"@,
            r.assets_dir@ == "assets"@,
            r.assets_manganis == true,
    {
        BuildConfig {
            out_dir: default_out_dir(),
            assets_dir: default_assets_dir(),
            assets_manganis: default_assets_manganis(),
        }
    }
}

#[derive(Debug)]
pub struct Config {
    pub release: bool,
    pub public_dir: String,
    pub server: ServerConfig,
    pub build: BuildConfig,
    pub env_dir: EnvDir,
}

impl Default for Config {
    /// The configuration of a project without `Thaw.toml`.
    fn default() -> (r: Config)
        ensures
            r.release == false,
            r.public_dir@ == "public"@,
            r.server.host@ == "localhost"@,
            r.server.port == 6321,
            r.server.open == false,
            r.server.proxy@.len() == 0,
            r.server.watch.paths@.len() == 0,
            r.server.watch.ignored@.len() == 0,
            r.server.erase_components == false,
            r.build.out_dir@ == "dist"@,
            r.build.assets_dir@ == "assets"@,
            r.build.assets_manganis == true,
            r.env_dir matches EnvDir::Path(p) && p@.len() == 0,
    {
        Config {
            release: false,
            public_dir: default_public_dir(),
            server: ServerConfig::default(),
            build: BuildConfig::default(),
            env_dir: EnvDir::default(),
        }
    }
}

} // verus!
