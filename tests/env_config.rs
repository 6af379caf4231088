use thaw_cli::config::{
    default_assets_dir, default_assets_manganis, default_erase_components, default_host,
    default_open, default_out_dir, default_port, default_public_dir, BuildConfig, Config,
    ConfigError, EnvDir, EnvDirSetting, ServerConfig,
};
use thaw_cli::env::Env;
use thaw_cli::pipeline::default_env;

fn pairs(p: &[(&str, &str)]) -> Vec<(String, String)> {
    p.iter().map(|(k, v)| (k.to_string(), v.to_string())).collect()
}

#[test]
fn defaults() {
    assert_eq!(default_public_dir(), "public");
    assert_eq!(default_host(), "localhost");
    assert_eq!(default_port(), 6321);
    assert!(!default_open());
    assert!(!default_erase_components());
    assert_eq!(default_out_dir(), "dist");
    assert_eq!(default_assets_dir(), "assets");
    assert!(default_assets_manganis());
    let c = Config::default();
    assert!(!c.release);
    assert_eq!(c.server.port, 6321);
    assert!(c.server.proxy.is_empty());
    assert_eq!(c.build.out_dir, "dist");
    assert!(matches!(c.env_dir, EnvDir::Path(ref p) if p.is_empty()));
    assert_eq!(ServerConfig::default().host, "localhost");
    assert_eq!(BuildConfig::default().assets_dir, "assets");
}

#[test]
fn env_dir_setting() {
    assert!(matches!(EnvDir::from_setting(EnvDirSetting::String("cfg".to_string())), Ok(EnvDir::Path(ref p)) if p == "cfg"));
    assert!(matches!(EnvDir::from_setting(EnvDirSetting::Bool(false)), Ok(EnvDir::False)));
    assert!(matches!(EnvDir::from_setting(EnvDirSetting::Bool(true)), Err(ConfigError::EnvDirTrue)));
}

#[test]
fn env_files_for_mode() {
    assert_eq!(
        Env::get_env_files_for_mode("development", &EnvDir::Path(String::new())),
        vec![".env", ".env.local", ".env.development", ".env.development.local"]
    );
    assert_eq!(
        Env::get_env_files_for_mode("production", &EnvDir::Path("env".to_string())),
        vec!["env/.env", "env/.env.local", "env/.env.production", "env/.env.production.local"]
    );
    assert!(Env::get_env_files_for_mode("production", &EnvDir::False).is_empty());
}

#[test]
fn later_files_override_earlier_ones() {
    let env = Env::from_layers(vec![pairs(&[("A", "1"), ("B", "1")]), pairs(&[("B", "2")]), pairs(&[("C", "3"), ("C", "4")])]);
    assert_eq!(env.get("A").map(|s| s.as_str()), Some("1"));
    assert_eq!(env.get("B").map(|s| s.as_str()), Some("2"));
    assert_eq!(env.get("C").map(|s| s.as_str()), Some("4"));
    assert_eq!(env.get("D"), None);
    assert_eq!(env.cloned_into_iter().len(), 3);
}

#[test]
fn defaults_do_not_override_user_values() {
    let mut env = Env::new();
    env.insert("LEPTOS_SITE_ADDR".to_string(), "0.0.0.0:8000".to_string());
    env.set_default(pairs(&[("LEPTOS_SITE_ADDR", "127.0.0.1:3000"), ("X", "first"), ("X", "second")]));
    assert_eq!(env.get("LEPTOS_SITE_ADDR").unwrap(), "0.0.0.0:8000");
    assert_eq!(env.get("X").unwrap(), "first");
}

#[test]
fn backend_environment_has_the_reload_port() {
    let mut env = Env::new();
    env.set_default(default_env("app", 6321));
    let vars = env.cloned_into_iter();
    assert!(vars.contains(&("LEPTOS_RELOAD_EXTERNAL_PORT".to_string(), "6321".to_string())));
    assert!(vars.contains(&("LEPTOS_OUTPUT_NAME".to_string(), "app".to_string())));
    assert!(vars.contains(&("LEPTOS_SITE_PKG_DIR".to_string(), "assets".to_string())));
    assert!(vars.contains(&("LEPTOS_WATCH".to_string(), String::new())));
    assert!(vars.contains(&("LEPTOS_SITE_ADDR".to_string(), "127.0.0.1:3000".to_string())));
}
